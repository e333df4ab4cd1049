use serde_json::Value;
use zen_free_api::config::{Config, EnvVars};
use zen_free_api::documents::{conversation_document, health, usage_document};
use zen_free_api::state::{AppState, ModelUsage};

fn json(text: &str) -> Value {
    serde_json::from_str(text).unwrap()
}

fn list(text: &str) -> Vec<Value> {
    serde_json::from_str(text).unwrap()
}

fn state() -> AppState {
    let env = EnvVars {
        base_url: None,
        api_key: None,
        client_name: None,
        user_agent: None,
        session_id: None,
        project_id: None,
        state_dir: None,
        home: None,
        listen_addr: None,
    };
    AppState::new(Config::with_defaults(env, "s", "p"))
}

#[test]
fn health_names_the_routes() {
    assert_eq!(
        health(),
        json(
            r#"{"status":"ok","service":"zen-free-api",
                "description":"OpenAI-compatible proxy for opencode.ai/zen/v1",
                "endpoints":{"models":"GET /v1/models","chat":"POST /v1/chat/completions",
                    "usage":"GET /v1/usage","conversation":"GET /v1/conversation/{model}",
                    "reset":"POST /v1/reset/{model}"}}"#
        )
    );
}

#[test]
fn usage_document_as_documented() {
    let report = vec![ModelUsage {
        model: "deepseek-v4-flash-free".to_string(),
        message_count: 4,
        last_usage: "usage: in=120 out=85 cached=0".to_string(),
    }];
    assert_eq!(
        usage_document(&report),
        json(
            r#"{"models":[{"model":"deepseek-v4-flash-free","message_count":4,
                "last_usage":"usage: in=120 out=85 cached=0"}]}"#
        )
    );
}

#[test]
fn usage_of_the_state() {
    let mut state = state();
    assert_eq!(state.get_usage(), json(r#"{"models":[]}"#));
    state.save_messages("m", list("[1,2]"));
    assert_eq!(
        state.get_usage(),
        json(r#"{"models":[{"model":"m","message_count":2,"last_usage":""}]}"#)
    );
}

#[test]
fn conversation_is_shown() {
    let mut state = state();
    assert_eq!(
        state.get_conversation("m", None),
        json(r#"{"model":"m","message_count":0,"messages":[]}"#)
    );
    assert_eq!(
        state.get_conversation("m", Some("[1]")),
        json(r#"{"model":"m","message_count":1,"messages":[1]}"#)
    );
    state.save_messages("m", list("[2,3]"));
    assert_eq!(
        state.get_conversation("m", Some("[1]")),
        json(r#"{"model":"m","message_count":2,"messages":[2,3]}"#)
    );
    assert_eq!(
        conversation_document("x", list("[true]")),
        json(r#"{"model":"x","message_count":1,"messages":[true]}"#)
    );
}

#[test]
fn reset_leaves_no_messages() {
    let mut state = state();
    state.save_messages("m", list("[1]"));
    state.save_messages("n", list("[2]"));
    let (document, text) = state.reset_conversation("m");
    assert_eq!(document, json(r#"{"status":"reset","model":"m"}"#));
    assert_eq!(text, "[]");
    assert!(state.load_messages("m", Some("[1]")).is_empty());
    assert_eq!(state.load_messages("n", None), list("[2]"));
}
