//! The logic of an OpenAI-compatible localhost proxy for opencode.ai/zen/v1.
//!
//! It builds the requests to the upstream, relays and tracks the answers, and keeps the
//! conversation and the usage of each model. Files, environment and network are left to the
//! caller, which hands in what it read and gets back what to write or send.

pub mod chat_laws;
pub mod completion;
pub mod completion_laws;
pub mod config;
pub mod document_laws;
pub mod documents;
pub mod filename;
pub mod headers;
pub mod ids;
pub mod json;
pub mod laws;
pub mod model_map;
pub mod operation_laws;
pub mod routes;
pub mod settings_laws;
pub mod setup_laws;
pub mod state;
pub mod stream;
pub mod stream_laws;
pub mod text;
pub mod text_laws;
pub mod upstream;
pub mod upstream_laws;
