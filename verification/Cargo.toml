[package]
name = "zen_free_api"
version = "0.1.0"
edition = "2021"
publish = false

[dependencies]
async-stream = "0.3"
axum = "0.8"
bytes = "1"
futures = "0.3"
md5 = "0.7"
reqwest = { version = "0.12", default-features = false, features = ["stream", "rustls-tls"] }
serde_json = "1"
tokio = { version = "1", features = ["full"] }
tower-http = { version = "0.6", features = ["cors"] }
tracing = "0.1"
tracing-subscriber = "0.3"
uuid = { version = "1", features = ["v4"] }
