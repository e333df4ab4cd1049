use serde_json::Value;
use zen_free_api::completion::{read_completion, write_cost, write_usage, Completion, TokenUsage};

fn json(text: &str) -> Value {
    serde_json::from_str(text).unwrap()
}

#[test]
fn usage_line_as_documented() {
    let usage = TokenUsage { prompt: 120, completion: 85, cached: 0 };
    assert_eq!(write_usage(&usage), "usage: in=120 out=85 cached=0");
}

#[test]
fn usage_line_of_large_numbers() {
    let usage = TokenUsage { prompt: u64::MAX, completion: 10, cached: 9 };
    assert_eq!(write_usage(&usage), "usage: in=18446744073709551615 out=10 cached=9");
}

#[test]
fn cost_line_of_a_text() {
    assert_eq!(write_cost("0.5"), "cost: $0.5");
}

#[test]
fn whole_completion_is_read() {
    let value = json(
        r#"{"choices":[{"message":{"content":"Hi"}},{"message":{"content":"no"}}],
            "usage":{"prompt_tokens":3,"completion_tokens":4,
                     "prompt_tokens_details":{"cached_tokens":2}}}"#,
    );
    let completion = read_completion(&value, "message");
    assert_eq!(completion.content.as_deref(), Some("Hi"));
    assert_eq!(completion.usage, Some(TokenUsage { prompt: 3, completion: 4, cached: 2 }));
    assert_eq!(completion.cost, None);
    assert_eq!(completion.kept_line().as_deref(), Some("usage: in=3 out=4 cached=2"));
}

#[test]
fn numbers_that_are_missing_or_odd_count_as_zero() {
    let value = json(r#"{"usage":{"prompt_tokens":-1,"completion_tokens":1.5}}"#);
    let completion = read_completion(&value, "message");
    assert_eq!(completion.usage, Some(TokenUsage { prompt: 0, completion: 0, cached: 0 }));
    let null = read_completion(&json(r#"{"usage":null}"#), "message");
    assert_eq!(null.kept_line().as_deref(), Some("usage: in=0 out=0 cached=0"));
}

#[test]
fn cost_wins_over_usage() {
    let value = json(r#"{"usage":{"prompt_tokens":3},"cost":0.00125}"#);
    let line = read_completion(&value, "message").kept_line();
    assert_eq!(line.as_deref(), Some("cost: $0.00125"));
    let text = read_completion(&json(r#"{"cost":"0"}"#), "message").kept_line();
    assert_eq!(text.as_deref(), Some("cost: $\"0\""));
    for printed in ["7", "-7", "null", "true", "false", "1e30"] {
        let text = format!("{{\"cost\":{}}}", printed);
        let line = read_completion(&json(&text), "message").kept_line();
        assert_eq!(line, Some(format!("cost: ${}", printed.replace("1e30", "1e+30"))));
    }
    let fields = read_completion(&json(r#"{"cost":{"b":[1, 2],"a":null}}"#), "message").kept_line();
    assert_eq!(fields.as_deref(), Some("cost: ${\"a\":null,\"b\":[1,2]}"));
}

#[test]
fn content_has_to_be_a_text_of_the_first_choice() {
    for text in [
        "{}",
        "[]",
        r#"{"choices":{}}"#,
        r#"{"choices":[]}"#,
        r#"{"choices":[{}]}"#,
        r#"{"choices":[{"message":{"content":null}}]}"#,
        r#"{"choices":[{"delta":{"content":"x"}}]}"#,
    ] {
        assert_eq!(read_completion(&json(text), "message").content, None);
    }
}

#[test]
fn nothing_to_keep() {
    let none = Completion { content: None, usage: None, cost: None };
    assert_eq!(none.kept_line(), None);
}
