use serde_json::Value;
use zen_free_api::completion::{Completion, TokenUsage};
use zen_free_api::config::{Config, EnvVars};
use zen_free_api::state::{new_assistant_message, read_saved_messages, AppState};
use zen_free_api::stream::StreamEnd;

fn json(text: &str) -> Value {
    serde_json::from_str(text).unwrap()
}

fn list(text: &str) -> Vec<Value> {
    serde_json::from_str(text).unwrap()
}

fn state() -> AppState {
    let env = EnvVars {
        base_url: None,
        api_key: None,
        client_name: None,
        user_agent: None,
        session_id: None,
        project_id: None,
        state_dir: None,
        home: Some("/home/user".to_string()),
        listen_addr: None,
    };
    AppState::new(Config::with_defaults(env, "s", "p"))
}

#[test]
fn state_file_is_below_the_state_directory() {
    let path = state().state_file("org/model:free");
    assert_eq!(path.base, "/home/user");
    assert_eq!(path.components, vec![".cache", "opencode-zen", "org%2Fmodel%3Afree.json"]);
}

#[test]
fn nothing_is_known_at_the_start() {
    let state = state();
    assert!(!state.has_conversation("m"));
    assert!(state.load_messages("m", None).is_empty());
    assert!(state.usage_report().is_empty());
    assert_eq!(state.config().api_key, "public");
}

#[test]
fn disk_stands_in_for_memory() {
    let state = state();
    assert_eq!(state.load_messages("m", Some("[1, {\"a\": 2}]")), list("[1, {\"a\": 2}]"));
    assert!(state.load_messages("m", Some("{}")).is_empty());
    assert!(state.load_messages("m", Some("not json")).is_empty());
    assert!(read_saved_messages(None).is_empty());
}

#[test]
fn memory_wins_over_disk() {
    let mut state = state();
    state.save_messages("m", list("[1]"));
    assert!(state.has_conversation("m"));
    assert_eq!(state.load_messages("m", Some("[2]")), list("[1]"));
    assert_eq!(state.recall_messages("m", list("[2]")), list("[1]"));
    assert_eq!(state.recall_messages("n", list("[2]")), list("[2]"));
}

#[test]
fn saved_text_survives_a_restart() {
    let messages = list(
        r#"[{"role":"user","content":"Hi \"there\" \n é ✓"},{"n":[1,-2,null,true,0.5]},"text",7]"#,
    );
    let text = state().save_messages("m", messages.clone());
    assert!(text.starts_with("[\n  {\n    \"content\": "));
    assert_eq!(state().load_messages("m", Some(&text)), messages);
}

#[test]
fn a_later_save_takes_the_place_of_the_first() {
    let mut state = state();
    state.save_messages("m", list("[1, 2]"));
    state.save_messages("n", list("[3]"));
    let text = state.save_messages("m", list("[]"));
    assert_eq!(text, "[]");
    assert!(state.load_messages("m", Some("[9]")).is_empty());
    assert_eq!(state.load_messages("n", None), list("[3]"));
}

#[test]
fn assistant_message_has_role_and_content() {
    assert_eq!(
        new_assistant_message("Hi".to_string()),
        json(r#"{"role":"assistant","content":"Hi"}"#)
    );
}

#[test]
fn replies_are_appended() {
    let mut state = state();
    let text = state.append_assistant("m", "Hi".to_string(), Some("[1]"));
    let expected = list(r#"[1, {"role":"assistant","content":"Hi"}]"#);
    assert_eq!(state.load_messages("m", None), expected);
    assert_eq!(list(&text), expected);
    state.append_assistant("m", "".to_string(), Some("[2]"));
    assert_eq!(state.load_messages("m", None).len(), 3);
}

#[test]
fn completion_is_recorded() {
    let mut state = state();
    state.save_messages("m", list("[1]"));
    let completion = Completion {
        content: Some("Hi".to_string()),
        usage: Some(TokenUsage { prompt: 120, completion: 85, cached: 0 }),
        cost: None,
    };
    assert!(state.record_completion("m", completion, None).is_some());
    assert_eq!(state.load_messages("m", None).len(), 2);
    let report = state.usage_report();
    assert_eq!(report.len(), 1);
    assert_eq!(report[0].model, "m");
    assert_eq!(report[0].message_count, 2);
    assert_eq!(report[0].last_usage, "usage: in=120 out=85 cached=0");
}

#[test]
fn completion_without_content_appends_nothing() {
    let mut state = state();
    let completion = Completion { content: None, usage: None, cost: Some("1".to_string()) };
    assert_eq!(state.record_completion("m", completion, Some("[1]")), None);
    assert!(!state.has_conversation("m"));
    // A model without a conversation in memory is not reported.
    assert!(state.usage_report().is_empty());
    state.save_messages("m", list("[]"));
    assert_eq!(state.usage_report()[0].last_usage, "cost: $1");
}

#[test]
fn stream_is_recorded() {
    let mut state = state();
    let end = StreamEnd {
        rest: Vec::new(),
        reply: Some("Hi".to_string()),
        usage: Some("cost: $2".to_string()),
        failure: None,
    };
    assert!(state.record_stream("m", end, None).is_some());
    assert_eq!(
        state.load_messages("m", None),
        list(r#"[{"role":"assistant","content":"Hi"}]"#)
    );
    assert_eq!(state.usage_report()[0].last_usage, "cost: $2");
    let silent = StreamEnd { rest: Vec::new(), reply: None, usage: None, failure: None };
    assert_eq!(state.record_stream("m", silent, None), None);
    assert_eq!(state.usage_report()[0].last_usage, "cost: $2");
}

#[test]
fn usage_is_kept_by_model() {
    let mut state = state();
    state.save_messages("a", list("[1]"));
    state.save_messages("b", list("[1, 2]"));
    state.set_usage("b", "first".to_string());
    state.set_usage("b", "second".to_string());
    let mut report = state.usage_report();
    report.sort_by(|x, y| x.model.cmp(&y.model));
    assert_eq!(report.len(), 2);
    assert_eq!(report[0].message_count, 1);
    assert_eq!(report[0].last_usage, "");
    assert_eq!(report[1].message_count, 2);
    assert_eq!(report[1].last_usage, "second");
}

#[test]
fn the_name_kept_for_raw_text_reads_back_behind_another() {
    let messages = list(r##"[{"$serde_json":1,"$serde_json::private::RawValue":"2"}]"##);
    assert_eq!(messages[0]["$serde_json::private::RawValue"], "2");
    let text = state().save_messages("m", messages.clone());
    assert_eq!(state().load_messages("m", Some(&text)), messages);
}

#[test]
fn messages_read_back_as_deep_as_the_parser_goes() {
    let nested = |depth: usize| format!("[{}{}]", "[".repeat(depth), "]".repeat(depth));
    let messages = list(&nested(126));
    let text = state().save_messages("m", messages.clone());
    assert_eq!(state().load_messages("m", Some(&text)), messages);
    assert!(state().load_messages("m", Some(&nested(127))).is_empty());
}

#[test]
fn each_model_has_a_file_of_its_own() {
    let mut first = state();
    let text = first.save_messages("a/b", list(r#"[{"role":"user","content":"x"}]"#));
    assert_ne!(first.state_file("a/b").components, first.state_file("a_b").components);
    // Nothing was written to the file of the other model.
    assert!(first.load_messages("a_b", None).is_empty());
    assert_eq!(state().load_messages("a/b", Some(&text)).len(), 1);
}
