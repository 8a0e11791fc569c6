use aclaude::json::{compact_json, parse_json};
use aclaude::tui::app::ToolCallItem;
use aclaude::tui::diff::{
    render_bash, render_edit, render_generic, render_result_preview, render_tool_call,
    render_unified_diff, Color, MAX_PREVIEW_LINES,
};

#[test]
fn unified_diff_shows_changes() {
    let old = "line1\nline2\nline3\n";
    let new = "line1\nmodified\nline3\n";
    let lines = render_unified_diff(old, new);

    let text: Vec<String> = lines.iter().map(|l| l.to_text()).collect();
    assert!(text.iter().any(|l| l.contains("- line2")));
    assert!(text.iter().any(|l| l.contains("+ modified")));
}

#[test]
fn unified_diff_empty_inputs() {
    let lines = render_unified_diff("", "");
    assert_eq!(lines.len(), 1); // "(no changes)"
}

#[test]
fn render_edit_parses_input() {
    let input = parse_json(
        r#"{"file_path":"src/main.rs","old_string":"fn old() {}","new_string":"fn new() {}"}"#,
    )
    .unwrap();
    let lines = render_edit(&input);
    let text: Vec<String> = lines.iter().map(|l| l.to_text()).collect();
    assert!(text[0].contains("src/main.rs"));
    assert!(text.iter().any(|l| l.contains("- fn old")));
    assert!(text.iter().any(|l| l.contains("+ fn new")));
}

#[test]
fn render_bash_truncates_long_commands() {
    let long_cmd = "a".repeat(200);
    let input = parse_json(&format!(r#"{{"command":"{long_cmd}"}}"#)).unwrap();
    let lines = render_bash(&input, "", false);
    let text = lines[0].to_text();
    assert!(text.contains("..."));
    assert!(text.len() < 200);
}

#[test]
fn render_result_preview_truncates() {
    let result: String = (0..50).map(|i| format!("line {i}")).collect::<Vec<_>>().join("\n");
    let lines = render_result_preview(&result, false);
    // 12 lines + 1 "[... N more lines]"
    assert_eq!(lines.len(), MAX_PREVIEW_LINES + 1);
    let last = lines.last().unwrap().to_text();
    assert!(last.contains("more lines"));
}

#[test]
fn render_result_preview_expanded_shows_all() {
    let result: String = (0..50).map(|i| format!("line {i}")).collect::<Vec<_>>().join("\n");
    let lines = render_result_preview(&result, true);
    assert_eq!(lines.len(), 50);
}

#[test]
fn render_generic_shows_truncated_json() {
    let input = compact_json(r#"{ "key" : "value" }"#);
    let lines = render_generic("CustomTool", &input);
    assert_eq!(lines.len(), 1);
    let text = lines[0].to_text();
    assert!(text.contains("CustomTool"));
}

#[test]
fn preview_note_counts_hidden_lines() {
    let result: String = (0..50).map(|i| format!("line {i}")).collect::<Vec<_>>().join("\n");
    let lines = render_result_preview(&result, false);
    assert_eq!(lines[0].to_text(), "    line 0");
    assert_eq!(lines[12].to_text(), "    [... 38 more lines]");
    assert!(lines[12].spans[0].style.italic);
    assert_eq!(lines[12].spans[0].style.fg, Some(Color::DarkGray));
}

#[test]
fn preview_strips_crlf_and_final_newline() {
    let lines = render_result_preview("a\r\nb\n", false);
    let text: Vec<String> = lines.iter().map(|l| l.to_text()).collect();
    assert_eq!(text, vec!["    a".to_string(), "    b".to_string()]);
}

#[test]
fn bash_short_and_multiline_commands() {
    let short = parse_json(r#"{"command":"ls -la"}"#).unwrap();
    assert_eq!(render_bash(&short, "", false)[0].to_text(), "    $ ls -la");
    let multi = parse_json(r#"{"command":"echo a\necho b"}"#).unwrap();
    assert_eq!(render_bash(&multi, "", false)[0].to_text(), "    $ echo a...");
    let missing = parse_json(r#"{}"#).unwrap();
    assert_eq!(render_bash(&missing, "out", false).len(), 2);
}

#[test]
fn diff_lines_are_prefixed_and_coloured() {
    let lines = render_unified_diff("a\nb\n", "a\nc\n");
    let text: Vec<String> = lines.iter().map(|l| l.to_text()).collect();
    assert_eq!(text, vec!["        a", "      - b", "      + c"]);
    assert_eq!(lines[1].spans[0].style.fg, Some(Color::Red));
    assert_eq!(lines[2].spans[0].style.fg, Some(Color::Green));
}

#[test]
fn tool_call_dispatches_by_name() {
    let item = ToolCallItem {
        name: "Write".to_string(),
        input_json: r#"{"file_path":"out.txt"}"#.to_string(),
        result_preview: String::new(),
        is_expanded: false,
    };
    let lines = render_tool_call(&item);
    assert_eq!(lines.len(), 1);
    assert_eq!(lines[0].to_text(), "    + out.txt");
    let other = ToolCallItem {
        name: "Task".to_string(),
        input_json: "not json".to_string(),
        result_preview: String::new(),
        is_expanded: false,
    };
    assert_eq!(render_tool_call(&other)[0].to_text(), "    Task: null");
    let grep = ToolCallItem {
        name: "Grep".to_string(),
        input_json: r#"{"pattern":"fn main"}"#.to_string(),
        result_preview: "src/main.rs".to_string(),
        is_expanded: false,
    };
    let g: Vec<String> = render_tool_call(&grep).iter().map(|l| l.to_text()).collect();
    assert_eq!(g, vec!["    🔍 /fn main/ in .".to_string(), "    src/main.rs".to_string()]);
}

#[test]
fn edit_without_strings_shows_only_path() {
    let input = parse_json(r#"{"file_path":"x.rs"}"#).unwrap();
    let lines = render_edit(&input);
    assert_eq!(lines.len(), 1);
    assert_eq!(lines[0].to_text(), "    ~ x.rs");
}
