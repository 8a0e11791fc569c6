use aclaude::hooks::SessionHooks;

#[test]
fn events_are_recorded_in_order() {
    let mut h = SessionHooks::new("sess".to_string());
    h.record_event("start", serde_json::Value::Null);
    h.record_event("stop", serde_json::Value::Bool(true));
    let ev = h.events();
    assert_eq!(ev.len(), 2);
    assert_eq!(ev[0].event, "start");
    assert_eq!(ev[1].event, "stop");
    assert_eq!(ev[1].session_id, "sess");
    assert_eq!(ev[1].data, serde_json::Value::Bool(true));
    assert!(!ev[0].timestamp.is_empty());
    assert!(ev[0].timestamp.ends_with("+00:00"));
    assert_eq!(ev[0].timestamp.as_bytes()[10], b'T');
    assert_eq!(ev[0].timestamp.as_bytes()[13], b':');
}

#[test]
fn tool_counts_and_failures() {
    let mut h = SessionHooks::new("s".to_string());
    h.record_tool_use("Read", "a.rs", Some("t1"));
    h.record_tool_use("Bash", "ls", None);
    h.record_tool_use("Read", "b.rs", None);
    let counts = h.tool_counts();
    assert_eq!(counts, vec![("Read".to_string(), 2), ("Bash".to_string(), 1)]);
    assert_eq!(h.tool_usage()[0].tool_use_id.as_deref(), Some("t1"));
    assert!(h.tool_usage()[1].success.is_none());
    assert!(h.failed_tools().is_empty());
}
