use axum::http::{HeaderMap, HeaderValue};
use zen_free_api::config::{Config, EnvVars};
use zen_free_api::state::AppState;
use zen_free_api::upstream::{
    build_headers, can_send_headers, choose_key, choose_value, RequestMethod,
};

fn config_with_key(api_key: &str) -> Config {
    let env = EnvVars {
        base_url: None,
        api_key: Some(api_key.to_string()),
        client_name: None,
        user_agent: None,
        session_id: None,
        project_id: None,
        state_dir: None,
        home: None,
        listen_addr: None,
    };
    Config::with_defaults(env, "sess_conf", "prj_conf")
}

fn some(text: &str) -> Option<String> {
    Some(text.to_string())
}

fn value(headers: &HeaderMap, name: &str) -> String {
    assert_eq!(headers.get_all(name).iter().count(), 1);
    headers.get(name).unwrap().to_str().unwrap().to_string()
}

#[test]
fn key_of_the_bearer_header_comes_first() {
    assert_eq!(choose_key(some("Bearer mine"), some("other"), "conf"), "mine");
    assert_eq!(choose_key(some("Bearer mine"), None, "conf"), "mine");
}

#[test]
fn x_api_key_counts_without_a_bearer_header() {
    assert_eq!(choose_key(None, some("other"), "conf"), "other");
    assert_eq!(choose_key(some("Basic abc"), some("other"), "conf"), "other");
    assert_eq!(choose_key(some("bearer mine"), some("other"), "conf"), "other");
}

#[test]
fn anonymous_clients_get_the_configured_key() {
    assert_eq!(choose_key(some("Bearer public"), None, "conf"), "conf");
    assert_eq!(choose_key(some("Bearer public"), some("other"), "conf"), "conf");
    assert_eq!(choose_key(some("Bearer "), some("other"), "conf"), "conf");
    assert_eq!(choose_key(None, some("public"), "conf"), "conf");
    assert_eq!(choose_key(None, some(""), "conf"), "conf");
    assert_eq!(choose_key(None, None, "conf"), "conf");
    assert_eq!(choose_key(some("Basic abc"), None, "conf"), "conf");
}

#[test]
fn a_client_value_wins_even_when_empty() {
    assert_eq!(choose_value(some("mine"), "conf"), "mine");
    assert_eq!(choose_value(some(""), "conf"), "");
    assert_eq!(choose_value(None, "conf"), "conf");
}

#[test]
fn headers_without_overrides() {
    let config = config_with_key("public");
    let client = HeaderMap::new();
    assert!(can_send_headers(&config, &client));
    let headers = build_headers(&config, &client, false, "req_1");
    assert_eq!(headers.len(), 8);
    assert_eq!(value(&headers, "authorization"), "Bearer public");
    assert_eq!(value(&headers, "content-type"), "application/json");
    assert_eq!(value(&headers, "accept"), "application/json");
    assert_eq!(value(&headers, "x-opencode-session"), "sess_conf");
    assert_eq!(value(&headers, "x-opencode-request"), "req_1");
    assert_eq!(value(&headers, "x-opencode-project"), "prj_conf");
    assert_eq!(value(&headers, "x-opencode-client"), "cli");
    assert_eq!(value(&headers, "user-agent"), "opencode/0.0.0");
}

#[test]
fn headers_with_overrides() {
    let config = config_with_key("conf");
    let mut client = HeaderMap::new();
    client.insert("Authorization", HeaderValue::from_static("Bearer your_key"));
    client.append("authorization", HeaderValue::from_static("Bearer second"));
    client.insert("X-Opencode-Session", HeaderValue::from_static("sess_abc123"));
    client.insert("x-opencode-project", HeaderValue::from_static("prj_mine"));
    client.insert("x-other", HeaderValue::from_static("dropped"));
    let headers = build_headers(&config, &client, true, "req_2");
    assert_eq!(headers.len(), 8);
    assert_eq!(value(&headers, "authorization"), "Bearer your_key");
    assert_eq!(value(&headers, "accept"), "text/event-stream");
    assert_eq!(value(&headers, "x-opencode-session"), "sess_abc123");
    assert_eq!(value(&headers, "x-opencode-project"), "prj_mine");
}

#[test]
fn an_override_that_is_not_plain_text_is_passed_over() {
    let config = config_with_key("conf");
    let mut client = HeaderMap::new();
    client.insert("authorization", HeaderValue::from_bytes(b"Bearer caf\xe9").unwrap());
    client.insert("x-opencode-session", HeaderValue::from_bytes(b"\xff").unwrap());
    let headers = build_headers(&config, &client, false, "req_3");
    assert_eq!(value(&headers, "authorization"), "Bearer conf");
    assert_eq!(value(&headers, "x-opencode-session"), "sess_conf");
}

#[test]
fn configured_values_may_leave_ascii() {
    let config = config_with_key("clé");
    let client = HeaderMap::new();
    assert!(can_send_headers(&config, &client));
    let headers = build_headers(&config, &client, false, "req_4");
    assert_eq!(headers.get("authorization").unwrap().as_bytes(), "Bearer clé".as_bytes());
}

#[test]
fn control_characters_cannot_be_sent() {
    let config = config_with_key("line\nbreak");
    let client = HeaderMap::new();
    assert!(!can_send_headers(&config, &client));
    let mut own_key = HeaderMap::new();
    own_key.insert("x-api-key", HeaderValue::from_static("mine"));
    assert!(can_send_headers(&config, &own_key));
    assert!(can_send_headers(&config_with_key("tab\there"), &client));
    assert!(!can_send_headers(&config_with_key("del\u{7f}"), &client));
}

#[test]
fn each_request_has_an_identifier_of_its_own() {
    let state = AppState::new(config_with_key("public"));
    let client = HeaderMap::new();
    let first = value(&state.build_upstream_headers(&client, false), "x-opencode-request");
    let second = value(&state.build_upstream_headers(&client, false), "x-opencode-request");
    assert!(first.starts_with("req_"));
    assert_eq!(first.len(), 28);
    assert_ne!(first, second);
}

#[test]
fn requests_go_to_the_routes_of_the_upstream() {
    let state = AppState::new(config_with_key("public"));
    let client = HeaderMap::new();
    let models = state.models_request(&client);
    assert_eq!(models.url, "https://opencode.ai/zen/v1/models");
    assert_eq!(models.method, RequestMethod::Get);
    assert_eq!(models.body, None);
    assert_eq!(value(&models.headers, "accept"), "application/json");
    let body = b"{ \"model\" : \"m\" }\n".to_vec();
    let chat = state.chat_request(&client, true, body.clone());
    assert_eq!(chat.url, "https://opencode.ai/zen/v1/chat/completions");
    assert_eq!(chat.method, RequestMethod::Post);
    assert_eq!(chat.body, Some(body));
    assert_eq!(value(&chat.headers, "accept"), "text/event-stream");
}
