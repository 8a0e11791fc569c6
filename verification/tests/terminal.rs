use aclaude::terminal::{
    best_available_tool, classify_terminal, detect_from_env, resolve_display_intent, verify_tool,
    DisplayTool, ImageSupport,
};

#[test]
fn dumb_terminal_unsupported() {
    assert_eq!(detect_from_env(&[("TERM", "dumb")]), ImageSupport::Unsupported);
}

#[test]
fn linux_console_unsupported() {
    assert_eq!(detect_from_env(&[("TERM", "linux")]), ImageSupport::Unsupported);
}

#[test]
fn apple_terminal_unsupported() {
    assert_eq!(
        detect_from_env(&[("TERM_PROGRAM", "Apple_Terminal")]),
        ImageSupport::Unsupported
    );
}

#[test]
fn kitty_via_window_id() {
    assert_eq!(
        detect_from_env(&[("KITTY_WINDOW_ID", "1")]),
        ImageSupport::Supported(DisplayTool::KittenIcat)
    );
}

#[test]
fn wezterm_via_executable() {
    assert_eq!(
        detect_from_env(&[("WEZTERM_EXECUTABLE", "/usr/bin/wezterm-gui")]),
        ImageSupport::Supported(DisplayTool::KittenIcat)
    );
}

#[test]
fn wezterm_via_pane() {
    assert_eq!(
        detect_from_env(&[("WEZTERM_PANE", "0")]),
        ImageSupport::Supported(DisplayTool::KittenIcat)
    );
}

#[test]
fn ghostty_via_resources_dir() {
    assert_eq!(
        detect_from_env(&[("GHOSTTY_RESOURCES_DIR", "/usr/share/ghostty")]),
        ImageSupport::Supported(DisplayTool::KittenIcat)
    );
}

#[test]
fn kitty_via_term_program() {
    assert_eq!(
        detect_from_env(&[("TERM_PROGRAM", "kitty")]),
        ImageSupport::Supported(DisplayTool::KittenIcat)
    );
}

#[test]
fn ghostty_via_term_program() {
    assert_eq!(
        detect_from_env(&[("TERM_PROGRAM", "ghostty")]),
        ImageSupport::Supported(DisplayTool::KittenIcat)
    );
}

#[test]
fn wezterm_via_term_program() {
    assert_eq!(
        detect_from_env(&[("TERM_PROGRAM", "WezTerm")]),
        ImageSupport::Supported(DisplayTool::KittenIcat)
    );
}

#[test]
fn konsole_via_term_program() {
    assert_eq!(
        detect_from_env(&[("TERM_PROGRAM", "konsole")]),
        ImageSupport::Supported(DisplayTool::KittenIcat)
    );
}

#[test]
fn xterm_kitty_term() {
    assert_eq!(
        detect_from_env(&[("TERM", "xterm-kitty")]),
        ImageSupport::Supported(DisplayTool::KittenIcat)
    );
}

#[test]
fn unknown_terminal() {
    assert_eq!(detect_from_env(&[("TERM", "xterm-256color")]), ImageSupport::Unknown);
}

#[test]
fn empty_env_is_unknown() {
    assert_eq!(detect_from_env(&[]), ImageSupport::Unknown);
}

#[test]
fn inside_tmux_wezterm_detected() {
    // Inside tmux, TERM_PROGRAM=tmux, but WEZTERM_EXECUTABLE survives
    let env = [
        ("TERM_PROGRAM", "tmux"),
        ("TERM", "tmux-256color"),
        ("WEZTERM_EXECUTABLE", "/opt/homebrew/bin/wezterm-gui"),
    ];
    assert_eq!(detect_from_env(&env), ImageSupport::Supported(DisplayTool::KittenIcat));
}

#[test]
fn known_bad_takes_priority_over_term_containing_kitty() {
    // Pathological: TERM=dumb should win even if it somehow contained "kitty"
    assert_eq!(detect_from_env(&[("TERM", "dumb")]), ImageSupport::Unsupported);
}

#[test]
fn resolve_never_skips_everything() {
    let (should_try, tool) = resolve_display_intent(
        "never",
        ImageSupport::Supported(DisplayTool::KittenIcat),
        true,
        true,
    );
    assert!(!should_try);
    assert!(tool.is_none());
}

#[test]
fn known_bad_wins_over_kitty_variables() {
    let env = [("TERM", "DUMB"), ("KITTY_WINDOW_ID", "3"), ("TERM_PROGRAM", "kitty")];
    assert_eq!(detect_from_env(&env), ImageSupport::Unsupported);
}

#[test]
fn later_pair_overrides_earlier() {
    let env = [("TERM", "dumb"), ("TERM", "xterm-kitty")];
    assert_eq!(detect_from_env(&env), ImageSupport::Supported(DisplayTool::KittenIcat));
}

#[test]
fn classify_rio_and_contour() {
    assert_eq!(
        classify_terminal("", "rio", false, false, false, false),
        ImageSupport::Supported(DisplayTool::KittenIcat)
    );
    assert_eq!(
        classify_terminal("", "contour", false, false, false, false),
        ImageSupport::Supported(DisplayTool::KittenIcat)
    );
    assert_eq!(classify_terminal("xterm", "tmux", false, false, false, false), ImageSupport::Unknown);
}

#[test]
fn best_tool_prefers_kitten() {
    assert_eq!(best_available_tool(true, true), Some(DisplayTool::KittenIcat));
    assert_eq!(best_available_tool(false, true), Some(DisplayTool::WeztermImgcat));
    assert_eq!(best_available_tool(false, false), None);
}

#[test]
fn verify_tool_falls_back_to_wezterm() {
    assert_eq!(verify_tool(DisplayTool::KittenIcat, false, true), Some(DisplayTool::WeztermImgcat));
    assert_eq!(verify_tool(DisplayTool::KittenIcat, false, false), None);
    assert_eq!(verify_tool(DisplayTool::WeztermImgcat, true, false), None);
    assert_eq!(verify_tool(DisplayTool::WeztermImgcat, false, true), Some(DisplayTool::WeztermImgcat));
}

#[test]
fn resolve_modes() {
    assert_eq!(
        resolve_display_intent("always", ImageSupport::Unsupported, false, true),
        (true, Some(DisplayTool::WeztermImgcat))
    );
    assert_eq!(
        resolve_display_intent("auto", ImageSupport::Unsupported, true, true),
        (false, None)
    );
    assert_eq!(
        resolve_display_intent("auto", ImageSupport::Unknown, true, false),
        (true, Some(DisplayTool::KittenIcat))
    );
    assert_eq!(
        resolve_display_intent("auto", ImageSupport::Supported(DisplayTool::KittenIcat), false, false),
        (false, None)
    );
}
