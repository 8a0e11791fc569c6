use aclaude::bridge::{
    should_push_statusline, statusline_character_name, stream_session_args, update_metrics,
    update_metrics_fits, user_message_line,
};
use aclaude::protocol_ext::{parse_bridge_event, SessionMetrics};

fn apply(m: &mut SessionMetrics, line: &str) {
    let e = parse_bridge_event(line).expect("event");
    assert!(update_metrics_fits(m, &e));
    update_metrics(m, &e);
}

#[test]
fn stream_args_with_and_without_prompt() {
    let a = stream_session_args("opus", "");
    assert_eq!(
        a,
        vec![
            "--output-format",
            "stream-json",
            "--input-format",
            "stream-json",
            "--verbose",
            "--include-partial-messages",
            "--model",
            "opus"
        ]
    );
    let b = stream_session_args("opus", "be brief");
    assert_eq!(b.len(), 10);
    assert_eq!(b[8], "--append-system-prompt");
    assert_eq!(b[9], "be brief");
}

#[test]
fn user_message_line_is_escaped_ndjson() {
    assert_eq!(
        user_message_line("hi"),
        "{\"message\":{\"content\":\"hi\",\"role\":\"user\"},\"type\":\"user\"}\n"
    );
    assert_eq!(
        user_message_line("say \"x\"\n"),
        "{\"message\":{\"content\":\"say \\\"x\\\"\\n\",\"role\":\"user\"},\"type\":\"user\"}\n"
    );
    let line = user_message_line("a\u{1}\\\tb\r\u{8}\u{c}é");
    assert_eq!(
        line,
        "{\"message\":{\"content\":\"a\\u0001\\\\\\tb\\r\\b\\fé\",\"role\":\"user\"},\"type\":\"user\"}\n"
    );
    assert_eq!(line.matches('\n').count(), 1);
    let back: serde_json::Value = serde_json::from_str(&line).unwrap();
    assert_eq!(back["message"]["content"], "a\u{1}\\\tb\r\u{8}\u{c}é");
}

#[test]
fn metrics_follow_events() {
    let mut m = SessionMetrics::default();
    apply(&mut m, r#"{"type":"system","session_id":"s-1"}"#);
    assert_eq!(m.session_id.as_deref(), Some("s-1"));
    apply(
        &mut m,
        r#"{"type":"assistant","message":{"content":[{"type":"tool_use","name":"Read"},{"type":"tool_use","name":"Bash"}],"usage":{"input_tokens":1000,"output_tokens":10,"cache_read_input_tokens":5,"cache_creation_input_tokens":7}}}"#,
    );
    assert_eq!(m.tool_use_count, 2);
    assert_eq!(m.active_tool.as_deref(), Some("Bash"));
    assert_eq!(m.input_tokens, 1000);
    assert_eq!(m.output_tokens, 10);
    assert_eq!(m.cache_read_tokens, 5);
    assert_eq!(m.cache_creation_tokens, 7);
    assert_eq!(m.context_used, 1000);
    assert_eq!(m.context_window, 200_000);
    apply(&mut m, r#"{"type":"user","message":{"content":[{"type":"tool_result","tool_use_id":"t","content":"ok"}]}}"#);
    assert!(m.active_tool.is_none());
    apply(&mut m, r#"{"type":"rate_limit_event","status":"allowed"}"#);
    assert_eq!(m.rate_limit_status.as_deref(), Some("allowed"));
    apply(&mut m, r#"{"type":"result","num_turns":3,"total_cost_usd":1.5}"#);
    assert_eq!(m.num_turns, 3);
    assert_eq!(m.cost_usd.as_deref(), Some("1.5"));
    assert_eq!(m.input_tokens, 1000);
}

#[test]
fn overflowing_counts_do_not_fit() {
    let m = SessionMetrics { input_tokens: u64::MAX, ..SessionMetrics::default() };
    let e = parse_bridge_event(
        r#"{"type":"assistant","message":{"content":[],"usage":{"input_tokens":1}}}"#,
    )
    .unwrap();
    assert!(!update_metrics_fits(&m, &e));
    let e2 = parse_bridge_event(r#"{"type":"assistant","message":{"content":[]}}"#).unwrap();
    assert!(update_metrics_fits(&m, &e2));
}

#[test]
fn statusline_helpers() {
    assert_eq!(statusline_character_name("the-expanse/naomi"), "naomi");
    assert_eq!(statusline_character_name("solo"), "solo");
    assert_eq!(statusline_character_name("a/b/"), "");
    let mut m = SessionMetrics::default();
    assert!(!should_push_statusline(true, &m));
    m.input_tokens = 1;
    assert!(should_push_statusline(true, &m));
    assert!(!should_push_statusline(false, &m));
}

