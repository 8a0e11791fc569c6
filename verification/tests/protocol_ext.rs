use aclaude::protocol_ext::{parse_bridge_event, BridgeEvent, ClaudeEvent, SessionMetrics};

#[test]
fn parse_text_delta() {
    let line = r#"{"type":"content_block_delta","index":0,"delta":{"type":"text_delta","text":"Hello"}}"#;
    match parse_bridge_event(line) {
        Some(BridgeEvent::TextDelta { text }) => assert_eq!(text, "Hello"),
        other => panic!("expected TextDelta, got {other:?}"),
    }
}

#[test]
fn parse_rate_limit() {
    let line = r#"{"type":"rate_limit_event","status":"rate_limited","resets_at":"2026-04-10T12:00:00Z"}"#;
    match parse_bridge_event(line) {
        Some(BridgeEvent::RateLimit { status, resets_at }) => {
            assert_eq!(status, "rate_limited");
            assert_eq!(resets_at.as_deref(), Some("2026-04-10T12:00:00Z"));
        }
        other => panic!("expected RateLimit, got {other:?}"),
    }
}

#[test]
fn parse_tool_result_string_content() {
    let line = r#"{"type":"user","message":{"role":"user","content":[{"type":"tool_result","tool_use_id":"abc123","content":"file contents here"}]}}"#;
    match parse_bridge_event(line) {
        Some(BridgeEvent::ToolResult { tool_use_id, content }) => {
            assert_eq!(tool_use_id, "abc123");
            assert_eq!(content, "file contents here");
        }
        other => panic!("expected ToolResult, got {other:?}"),
    }
}

#[test]
fn parse_core_system_event() {
    let line = r#"{"type":"system","session_id":"sess-123","tools":[]}"#;
    match parse_bridge_event(line) {
        Some(BridgeEvent::Core(ClaudeEvent::System { session_id })) => {
            assert_eq!(session_id, "sess-123");
        }
        other => panic!("expected Core(System), got {other:?}"),
    }
}

#[test]
fn parse_empty_line_returns_none() {
    assert!(parse_bridge_event("").is_none());
}

#[test]
fn parse_invalid_json_returns_none() {
    assert!(parse_bridge_event("not json").is_none());
}

#[test]
fn session_metrics_context_pct() {
    let mut m = SessionMetrics { input_tokens: 100_000, ..SessionMetrics::default() };
    m.update_context_pct(200_000);
    let pct = m.context_used as f64 / m.context_window as f64 * 100.0;
    assert!((pct - 50.0).abs() < 0.01);
}

#[test]
fn parse_tool_result_array_content() {
    let line = r#"{"type":"user","message":{"content":[{"type":"text","text":"skip"},{"type":"tool_result","content":[{"type":"text","text":"a"},{"type":"image"},{"type":"text","text":"b"},{"type":"text"}]}]}}"#;
    match parse_bridge_event(line) {
        Some(BridgeEvent::ToolResult { tool_use_id, content }) => {
            assert_eq!(tool_use_id, "");
            assert_eq!(content, "a\nb");
        }
        other => panic!("expected ToolResult, got {other:?}"),
    }
}

#[test]
fn rate_limit_without_status_is_unknown() {
    match parse_bridge_event(r#"{"type":"rate_limit_event"}"#) {
        Some(BridgeEvent::RateLimit { status, resets_at }) => {
            assert_eq!(status, "unknown");
            assert!(resets_at.is_none());
        }
        other => panic!("expected RateLimit, got {other:?}"),
    }
}

#[test]
fn non_text_delta_is_no_event() {
    let line = r#"{"type":"content_block_delta","delta":{"type":"input_json_delta","partial_json":"{"}}"#;
    assert!(parse_bridge_event(line).is_none());
    assert!(parse_bridge_event(r#"{"no_type":1}"#).is_none());
    assert!(parse_bridge_event(r#"[1,2]"#).is_none());
    assert!(parse_bridge_event(r#"{"type":"user","message":{"content":"plain"}}"#).is_none());
}

#[test]
fn parse_assistant_message() {
    let line = r#"{"type":"assistant","message":{"content":[{"type":"text","text":"x"},{"type":"tool_use","name":"Bash","id":"t1"}],"usage":{"input_tokens":12,"output_tokens":5,"cache_read_input_tokens":3}}}"#;
    match parse_bridge_event(line) {
        Some(BridgeEvent::Core(ClaudeEvent::Assistant { message })) => {
            assert_eq!(message.content.len(), 2);
            assert_eq!(message.content[1].block_type, "tool_use");
            assert_eq!(message.content[1].name.as_deref(), Some("Bash"));
            assert!(message.content[0].name.is_none());
            let u = message.usage.expect("usage");
            assert_eq!(u.input_tokens, 12);
            assert_eq!(u.output_tokens, 5);
            assert_eq!(u.cache_read_input_tokens, 3);
            assert_eq!(u.cache_creation_input_tokens, 0);
        }
        other => panic!("expected Core(Assistant), got {other:?}"),
    }
}

#[test]
fn parse_result_event() {
    let line = r#"{"type":"result","subtype":"success","num_turns":4,"total_cost_usd":0.0125}"#;
    match parse_bridge_event(line) {
        Some(BridgeEvent::Core(ClaudeEvent::Result { payload })) => {
            assert_eq!(payload.num_turns, 4);
            assert_eq!(payload.cost_usd.as_deref(), Some("0.0125"));
        }
        other => panic!("expected Core(Result), got {other:?}"),
    }
}

#[test]
fn context_estimate_keeps_empty_window() {
    let mut m = SessionMetrics { input_tokens: 7, ..SessionMetrics::default() };
    m.update_context_pct(0);
    assert_eq!((m.context_used, m.context_window), (7, 0));
}
