use aclaude::tui::input::{
    handle_key, parse_slash_command, InputAction, KeyCode, KeyEvent, SlashCmd, CONTROL,
};

#[test]
fn parse_portrait_size_command() {
    match parse_slash_command("/persona portrait size large") {
        Some(SlashCmd::PortraitSize(s)) => assert_eq!(s, "large"),
        other => panic!("expected PortraitSize, got {other:?}"),
    }
}

#[test]
fn parse_unknown_slash_command() {
    match parse_slash_command("/unknown") {
        Some(SlashCmd::Unknown(s)) => assert_eq!(s, "/unknown"),
        other => panic!("expected Unknown, got {other:?}"),
    }
}

#[test]
fn non_slash_returns_none() {
    assert!(parse_slash_command("hello").is_none());
}

#[test]
fn portrait_size_is_case_insensitive() {
    match parse_slash_command("/persona  portrait\tsize   ORIGINAL") {
        Some(SlashCmd::PortraitSize(s)) => assert_eq!(s, "original"),
        other => panic!("expected PortraitSize, got {other:?}"),
    }
}

#[test]
fn unknown_portrait_size_is_unknown_command() {
    match parse_slash_command("/persona portrait size huge") {
        Some(SlashCmd::Unknown(s)) => assert_eq!(s, "/persona portrait size huge"),
        other => panic!("expected Unknown, got {other:?}"),
    }
}

fn key(code: KeyCode) -> KeyEvent {
    KeyEvent { code, modifiers: 0 }
}

#[test]
fn typing_and_submitting() {
    let mut buf = String::new();
    for c in "  hi there ".chars() {
        assert!(matches!(handle_key(key(KeyCode::Char(c)), &mut buf), InputAction::Nothing));
    }
    assert_eq!(buf, "  hi there ");
    match handle_key(key(KeyCode::Enter), &mut buf) {
        InputAction::SendMessage(s) => assert_eq!(s, "hi there"),
        other => panic!("expected SendMessage, got {other:?}"),
    }
    assert_eq!(buf, "");
}

#[test]
fn backspace_and_blank_submit() {
    let mut buf = String::from("ab");
    assert!(matches!(handle_key(key(KeyCode::Backspace), &mut buf), InputAction::Nothing));
    assert_eq!(buf, "a");
    handle_key(key(KeyCode::Backspace), &mut buf);
    handle_key(key(KeyCode::Backspace), &mut buf);
    assert_eq!(buf, "");
    let mut blank = String::from("   ");
    assert!(matches!(handle_key(key(KeyCode::Enter), &mut blank), InputAction::Nothing));
    assert_eq!(blank, "");
}

#[test]
fn control_c_quits_and_keeps_buffer() {
    let mut buf = String::from("draft");
    let ev = KeyEvent { code: KeyCode::Char('c'), modifiers: CONTROL };
    assert!(matches!(handle_key(ev, &mut buf), InputAction::Quit));
    assert_eq!(buf, "draft");
    // Control with Shift is not the quit chord: the character is typed.
    let ev2 = KeyEvent { code: KeyCode::Char('c'), modifiers: CONTROL | 1 };
    assert!(matches!(handle_key(ev2, &mut buf), InputAction::Nothing));
    assert_eq!(buf, "draftc");
}

#[test]
fn scroll_keys() {
    let mut buf = String::from("x");
    assert!(matches!(handle_key(key(KeyCode::Up), &mut buf), InputAction::ScrollUp));
    assert!(matches!(handle_key(key(KeyCode::Down), &mut buf), InputAction::ScrollDown));
    assert!(matches!(handle_key(key(KeyCode::PageUp), &mut buf), InputAction::PageUp));
    assert!(matches!(handle_key(key(KeyCode::PageDown), &mut buf), InputAction::PageDown));
    assert!(matches!(handle_key(key(KeyCode::End), &mut buf), InputAction::ScrollEnd));
    assert!(matches!(handle_key(key(KeyCode::Home), &mut buf), InputAction::ScrollEnd));
    assert_eq!(buf, "x");
}

#[test]
fn submitting_slash_command() {
    let mut buf = String::from("/persona portrait size small");
    match handle_key(key(KeyCode::Enter), &mut buf) {
        InputAction::SlashCommand(SlashCmd::PortraitSize(s)) => assert_eq!(s, "small"),
        other => panic!("expected SlashCommand, got {other:?}"),
    }
}
