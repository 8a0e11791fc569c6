use aclaude::session::{
    claude_path_from_lookup, interactive_args, prompt_args, prompt_output_result,
    session_exit_result, AclaudeError,
};

#[test]
fn lookup_trims_path() {
    assert_eq!(claude_path_from_lookup(true, "  /usr/bin/agent\n").unwrap(), "/usr/bin/agent");
    assert!(matches!(claude_path_from_lookup(true, " \n\t"), Err(AclaudeError::ClaudeNotFound)));
    assert!(matches!(claude_path_from_lookup(false, "/usr/bin/agent"), Err(AclaudeError::ClaudeNotFound)));
}

#[test]
fn argument_lists() {
    assert_eq!(interactive_args("sonnet", ""), vec!["--model", "sonnet"]);
    assert_eq!(
        interactive_args("sonnet", "persona"),
        vec!["--model", "sonnet", "--append-system-prompt", "persona"]
    );
    assert_eq!(
        prompt_args("hello", "haiku", ""),
        vec!["-p", "hello", "--model", "haiku", "--output-format", "json"]
    );
}

#[test]
fn exit_status_messages() {
    assert!(session_exit_result("agent", true, Some(0)).is_ok());
    match session_exit_result("agent", false, Some(2)) {
        Err(AclaudeError::Session { message }) => assert_eq!(message, "agent exited with code 2"),
        other => panic!("expected Session error, got {other:?}"),
    }
    match session_exit_result("agent", false, None) {
        Err(AclaudeError::Session { message }) => assert_eq!(message, "agent exited with code -1"),
        other => panic!("expected Session error, got {other:?}"),
    }
    assert!(session_exit_result("agent", false, Some(0)).is_ok());
}

#[test]
fn prompt_output() {
    assert_eq!(prompt_output_result("agent", true, "{}", "").unwrap(), "{}");
    match prompt_output_result("agent", false, "", "boom") {
        Err(AclaudeError::Session { message }) => assert_eq!(message, "agent error: boom"),
        other => panic!("expected Session error, got {other:?}"),
    }
}
