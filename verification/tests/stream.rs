use serde_json::Value;
use zen_free_api::completion::{Completion, TokenUsage};
use zen_free_api::stream::StreamTracker;

const STREAM: &str = "data: {\"choices\":[{\"delta\":{\"content\":\"Hé\"}}]}\n\n\
     : comment\r\ndata: {\"choices\":[{\"delta\":{\"content\":\"llo\"}}]}\r\nevent: x\n\n\
     data: {\"choices\":[],\"usage\":{\"prompt_tokens\":12,\"completion_tokens\":3}}\n\n\
     data: [DONE]\n\n\
     tail";

fn relay(runs: &[&[u8]]) -> (Vec<u8>, Option<String>, Option<String>) {
    let mut tracker = StreamTracker::new();
    let mut out: Vec<u8> = Vec::new();
    for run in runs {
        for event in tracker.feed(run) {
            assert!(event.ends_with(b"\n\n"));
            out.extend_from_slice(&event);
        }
    }
    let end = tracker.finish();
    out.extend_from_slice(&end.rest);
    (out, end.reply, end.usage)
}

#[test]
fn stream_is_relayed_byte_for_byte() {
    let (out, reply, usage) = relay(&[STREAM.as_bytes()]);
    assert_eq!(out, STREAM.as_bytes());
    assert_eq!(reply.as_deref(), Some("Héllo"));
    assert_eq!(usage.as_deref(), Some("usage: in=12 out=3 cached=0"));
}

#[test]
fn any_cut_gives_the_same() {
    let bytes = STREAM.as_bytes();
    let whole = relay(&[bytes]);
    for cut in 0..bytes.len() {
        assert_eq!(relay(&[&bytes[..cut], &bytes[cut..]]), whole);
    }
    let single: Vec<&[u8]> = bytes.chunks(1).collect();
    assert_eq!(relay(&single), whole);
}

#[test]
fn events_are_handed_out_when_they_are_whole() {
    let mut tracker = StreamTracker::new();
    assert!(tracker.feed(b"data: a\n").is_empty());
    let out = tracker.feed(b"\ndata: b\n\n\ndata: c");
    assert_eq!(out, vec![b"data: a\n\n".to_vec(), b"data: b\n\n".to_vec()]);
    let end = tracker.finish();
    assert_eq!(end.rest, b"\ndata: c");
    assert_eq!(end.failure, None);
    assert_eq!(end.reply, None);
    assert_eq!(end.usage, None);
}

#[test]
fn an_empty_event_is_relayed_too() {
    let mut tracker = StreamTracker::new();
    assert_eq!(tracker.feed(b"\n\n\n\n"), vec![b"\n\n".to_vec(), b"\n\n".to_vec()]);
}

#[test]
fn bytes_that_are_no_utf8_are_relayed_as_they_are() {
    let bytes = b"data: \xff\xfe\n\ndata: {\"choices\":[{\"delta\":{\"content\":\"a\xffb\"}}]}\n\n";
    let (out, reply, _) = relay(&[bytes]);
    assert_eq!(out, bytes);
    assert_eq!(reply.as_deref(), Some("a\u{fffd}b"));
}

#[test]
fn a_chunk_with_an_error_is_passed_over() {
    let text = "data: {\"error\":null,\"choices\":[{\"delta\":{\"content\":\"x\"}}],\"cost\":1}\n\n";
    let (_, reply, usage) = relay(&[text.as_bytes()]);
    assert_eq!(reply, None);
    assert_eq!(usage, None);
}

#[test]
fn the_last_line_on_usage_or_cost_is_kept() {
    let text = "data: {\"usage\":{\"prompt_tokens\":1},\"cost\":0.5}\n\
                data: not json\n\
                data:{\"cost\":9}\n\n\
                data: {\"usage\":{\"prompt_tokens\":2}}\n\n";
    let (_, _, usage) = relay(&[text.as_bytes()]);
    assert_eq!(usage.as_deref(), Some("usage: in=2 out=0 cached=0"));
    let (_, _, first) = relay(&[text.split("\n\n").next().unwrap().as_bytes(), b"\n\n"]);
    assert_eq!(first.as_deref(), Some("cost: $0.5"));
}

#[test]
fn an_event_that_is_not_ended_is_not_tracked() {
    let text = "data: {\"choices\":[{\"delta\":{\"content\":\"x\"}}]}\n";
    let (out, reply, _) = relay(&[text.as_bytes()]);
    assert_eq!(out, text.as_bytes());
    assert_eq!(reply, None);
}

#[test]
fn chunks_add_up() {
    let mut tracker = StreamTracker::new();
    tracker.track_chunk(&Completion {
        content: Some("a".to_string()),
        usage: Some(TokenUsage { prompt: 1, completion: 2, cached: 3 }),
        cost: None,
    });
    tracker.track_chunk(&Completion { content: Some("b".to_string()), usage: None, cost: None });
    let end = tracker.finish();
    assert_eq!(end.reply.as_deref(), Some("ab"));
    assert_eq!(end.usage.as_deref(), Some("usage: in=1 out=2 cached=3"));
}

#[test]
fn an_event_is_tracked_by_its_text() {
    let mut tracker = StreamTracker::new();
    tracker.track_text("data: {\"cost\":1}\ndata: [DONE]\nretry: 3");
    tracker.track_text("data: {\"choices\":[{\"delta\":{\"content\":\"x\"}}]}");
    let end = tracker.finish();
    assert_eq!(end.reply.as_deref(), Some("x"));
    assert_eq!(end.usage.as_deref(), Some("cost: $1"));
}

#[test]
fn a_chunk_is_tracked_by_its_value() {
    let mut tracker = StreamTracker::new();
    let value: Value =
        serde_json::from_str(r#"{"choices":[{"delta":{"content":"x"}}],"usage":{}}"#).unwrap();
    tracker.track_value(&value);
    let failed: Value = serde_json::from_str(r#"{"error":{"code":1},"cost":2}"#).unwrap();
    tracker.track_value(&failed);
    assert_eq!(*tracker.errors(), vec!["{\"code\":1}"]);
    let end = tracker.finish();
    assert_eq!(end.reply.as_deref(), Some("x"));
    assert_eq!(end.usage.as_deref(), Some("usage: in=0 out=0 cached=0"));
}

#[test]
fn a_broken_stream_ends_in_its_error() {
    let text = "data: {\"choices\":[{\"delta\":{\"content\":\"x\"}}],\"cost\":1}\n\n";
    let mut tracker = StreamTracker::new();
    assert_eq!(tracker.feed(text.as_bytes()), vec![text.as_bytes().to_vec()]);
    assert!(tracker.feed(b"data: cut").is_empty());
    let end = tracker.fail("connection reset".to_string());
    assert!(end.rest.is_empty());
    assert_eq!(end.failure.as_deref(), Some("connection reset"));
    assert_eq!(end.reply.as_deref(), Some("x"));
    assert_eq!(end.usage.as_deref(), Some("cost: $1"));
}
