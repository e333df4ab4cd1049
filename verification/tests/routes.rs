use axum::http::{HeaderMap, HeaderValue};
use serde_json::Value;
use zen_free_api::config::{Config, EnvVars};
use zen_free_api::routes::{
    chat_failed, content_type, list_models, read_answer, read_chat, relay_reply, stream_response,
    treat_answer, Treatment, UpstreamAnswer,
};
use zen_free_api::state::AppState;
use zen_free_api::upstream::RequestMethod;

fn json(text: &str) -> Value {
    serde_json::from_str(text).unwrap()
}

fn list(text: &str) -> Vec<Value> {
    serde_json::from_str(text).unwrap()
}

fn state() -> AppState {
    let env = EnvVars {
        base_url: None,
        api_key: None,
        client_name: None,
        user_agent: None,
        session_id: None,
        project_id: None,
        state_dir: None,
        home: None,
        listen_addr: None,
    };
    AppState::new(Config::with_defaults(env, "s", "p"))
}

#[test]
fn empty_body_is_refused() {
    let mut state = state();
    let reply = state.chat_completions(&HeaderMap::new(), Vec::new()).unwrap_err();
    assert_eq!(reply.status, 400);
    assert_eq!(reply.content_type, "text/plain; charset=utf-8");
    assert_eq!(reply.body, b"empty request body");
    assert!(state.usage_report().is_empty());
}

#[test]
fn body_that_is_no_json_is_refused() {
    let mut state = state();
    let reply = state.chat_completions(&HeaderMap::new(), b"{".to_vec()).unwrap_err();
    assert_eq!(reply.status, 400);
    assert_eq!(
        reply.body,
        b"invalid JSON: EOF while parsing an object at line 1 column 1"
    );
    assert!(state.usage_report().is_empty());
}

#[test]
fn accepted_request_saves_its_messages() {
    let mut state = state();
    state.save_messages("m", list("[0]"));
    let body = br#"{"model":"m","stream":true,"messages":[{"role":"user","content":"Hi"}]}"#;
    let mut client = HeaderMap::new();
    client.insert("x-api-key", HeaderValue::from_static("mine"));
    let forwarded = state.chat_completions(&client, body.to_vec()).unwrap();
    let request = forwarded.request.unwrap();
    assert_eq!(request.method, RequestMethod::Post);
    assert_eq!(request.url, "https://opencode.ai/zen/v1/chat/completions");
    assert_eq!(request.headers["authorization"], "Bearer mine");
    assert_eq!(request.headers["accept"], "text/event-stream");
    assert_eq!(request.body, Some(body.to_vec()));
    let accepted = forwarded.chat;
    assert_eq!(accepted.model, "m");
    assert!(accepted.is_stream);
    assert_eq!(accepted.message_count, 1);
    let expected = list(r#"[{"role":"user","content":"Hi"}]"#);
    assert_eq!(list(&accepted.text.unwrap()), expected);
    assert_eq!(state.load_messages("m", None), expected);
}

#[test]
fn request_without_messages_saves_nothing() {
    let mut state = state();
    let body = br#"{"messages":{},"model":5,"stream":"yes"}"#;
    let forwarded = state.chat_completions(&HeaderMap::new(), body.to_vec()).unwrap();
    assert_eq!(forwarded.request.unwrap().headers["accept"], "application/json");
    let accepted = forwarded.chat;
    assert_eq!(accepted.model, "unknown");
    assert!(!accepted.is_stream);
    assert_eq!(accepted.message_count, 0);
    assert_eq!(accepted.text, None);
    assert!(!state.has_conversation("unknown"));
}

#[test]
fn any_json_is_accepted() {
    let accepted = state().chat_completions(&HeaderMap::new(), b"[]".to_vec()).unwrap().chat;
    assert_eq!(accepted.model, "unknown");
    assert_eq!(accepted.text, None);
}

#[test]
fn request_is_started_on_what_was_parsed() {
    let mut state = state();
    let accepted = state.start_chat(Ok(json(r#"{"model":"m","messages":[1]}"#))).unwrap();
    assert_eq!(accepted.model, "m");
    assert_eq!(state.load_messages("m", None), list("[1]"));
    let reply = state.start_chat(Err("why".to_string())).unwrap_err();
    assert_eq!(reply.status, 400);
    assert_eq!(reply.body, b"invalid JSON: why");
}

#[test]
fn answer_is_read_from_what_was_parsed() {
    let value = json(r#"{"choices":[{"message":{"content":""}}],"cost":1}"#);
    let completion = read_answer(Ok(value));
    assert_eq!(completion.content.as_deref(), Some(""));
    assert_eq!(completion.cost.as_deref(), Some("1"));
    let nothing = read_answer(Err("why".to_string()));
    assert_eq!(nothing.content, None);
    assert_eq!(nothing.kept_line(), None);
}

#[test]
fn chat_is_read() {
    let chat = read_chat(&json(r#"{"model":"m","messages":[1,2]}"#));
    assert_eq!(chat.model, "m");
    assert!(!chat.is_stream);
    assert_eq!(chat.messages, Some(list("[1,2]")));
}

#[test]
fn accepted_chat_keeps_its_messages() {
    let mut state = state();
    let chat = read_chat(&json(r#"{"model":"m","messages":[]}"#));
    let accepted = state.accept_chat(chat);
    assert_eq!(accepted.text.as_deref(), Some("[]"));
    assert!(state.has_conversation("m"));
}

#[test]
fn errors_of_the_upstream_are_relayed() {
    assert_eq!(treat_answer(401, true, Some("text/event-stream")), Treatment::Relay);
    assert_eq!(treat_answer(199, false, None), Treatment::Relay);
    assert_eq!(treat_answer(300, false, None), Treatment::Relay);
    let reply = relay_reply(401, Some("text/html".to_string()), b"no".to_vec());
    assert_eq!(reply.status, 401);
    assert_eq!(reply.content_type, "text/html");
    assert_eq!(reply.body, b"no");
    assert_eq!(relay_reply(401, None, Vec::new()).content_type, "application/json");
}

#[test]
fn streams_have_to_be_asked_for_and_named() {
    let named = Some("text/event-stream; charset=utf-8");
    assert_eq!(treat_answer(200, true, named), Treatment::Stream);
    assert_eq!(treat_answer(299, true, Some("x text/event-stream")), Treatment::Stream);
    assert_eq!(treat_answer(200, false, named), Treatment::Collect);
    assert_eq!(treat_answer(200, true, Some("application/json")), Treatment::Collect);
    assert_eq!(treat_answer(200, true, Some("text/event-strea")), Treatment::Collect);
    assert_eq!(treat_answer(200, true, None), Treatment::Collect);
}

#[test]
fn content_type_is_read_from_headers() {
    let mut headers = HeaderMap::new();
    assert_eq!(content_type(&headers), None);
    headers.insert("content-type", HeaderValue::from_static("text/html"));
    assert_eq!(content_type(&headers).as_deref(), Some("text/html"));
    headers.insert("content-type", HeaderValue::from_bytes(b"\xff").unwrap());
    assert_eq!(content_type(&headers), None);
}

#[test]
fn stream_answers_have_three_headers() {
    let head = stream_response();
    assert_eq!(head.status, 200);
    let headers = head.headers;
    assert_eq!(headers.len(), 3);
    assert_eq!(headers["content-type"], "text/event-stream");
    assert_eq!(headers["cache-control"], "no-cache");
    assert_eq!(headers["connection"], "keep-alive");
}

#[test]
fn models_are_relayed() {
    let reply = list_models(Ok(UpstreamAnswer {
        status: 200,
        content_type: None,
        body: b"{}".to_vec(),
    }));
    assert_eq!(reply.status, 200);
    assert_eq!(reply.content_type, "application/json");
    assert_eq!(reply.body, b"{}");
}

#[test]
fn unreachable_upstream_is_a_bad_gateway() {
    let reply = list_models(Err("refused".to_string()));
    assert_eq!(reply.status, 502);
    assert_eq!(reply.body, b"upstream connection failed: refused");
    let reply = chat_failed("timed out");
    assert_eq!(reply.status, 502);
    assert_eq!(reply.content_type, "text/plain; charset=utf-8");
    assert_eq!(reply.body, b"upstream request failed: timed out");
}

#[test]
fn answer_is_tracked_and_relayed() {
    let mut state = state();
    state.save_messages("m", list("[1]"));
    let body = br#" {"choices":[{"message":{"content":"Hi"}}],"usage":{"prompt_tokens":2}} "#;
    let (reply, text) = state.non_stream_response("m", None, Ok(body.to_vec()), None);
    assert_eq!(reply.status, 200);
    assert_eq!(reply.content_type, "application/json");
    assert_eq!(reply.body, body);
    let expected = list(r#"[1, {"role":"assistant","content":"Hi"}]"#);
    assert_eq!(list(&text.unwrap()), expected);
    assert_eq!(state.load_messages("m", None), expected);
    assert_eq!(state.usage_report()[0].last_usage, "usage: in=2 out=0 cached=0");
}

#[test]
fn answer_that_is_no_json_is_relayed_untracked() {
    let mut state = state();
    let html = Some("text/html".to_string());
    let (reply, text) = state.non_stream_response("m", html, Ok(b"<p>".to_vec()), Some("[1]"));
    assert_eq!(reply.content_type, "text/html");
    assert_eq!(reply.body, b"<p>");
    assert_eq!(text, None);
    assert!(!state.has_conversation("m"));
}

#[test]
fn answer_that_cannot_be_read_is_a_bad_gateway() {
    let mut state = state();
    let (reply, text) = state.non_stream_response("m", None, Err("cut".to_string()), None);
    assert_eq!(reply.status, 502);
    assert_eq!(reply.body, b"failed to read upstream body: cut");
    assert_eq!(text, None);
    assert!(!state.has_conversation("m"));
}

#[test]
fn request_that_cannot_be_sent_is_told() {
    let env = EnvVars {
        base_url: None,
        api_key: Some("line\nbreak".to_string()),
        client_name: None,
        user_agent: None,
        session_id: None,
        project_id: None,
        state_dir: None,
        home: None,
        listen_addr: None,
    };
    let mut state = AppState::new(Config::with_defaults(env, "s", "p"));
    let body = br#"{"model":"m","messages":[]}"#.to_vec();
    let forwarded = state.chat_completions(&HeaderMap::new(), body).unwrap();
    assert!(forwarded.request.is_none());
    // The messages are kept all the same.
    assert!(state.has_conversation("m"));
    assert_eq!(state.chat_completions(&HeaderMap::new(), Vec::new()).unwrap_err().status, 400);
}
