use aclaude::tui::scroll::ScrollState;

#[test]
fn auto_scroll_follows_content() {
    let mut s = ScrollState::default();
    s.set_viewport_height(10);
    s.set_content_height(20);
    assert_eq!(s.offset, 10);

    s.set_content_height(30);
    assert_eq!(s.offset, 20);
}

#[test]
fn manual_scroll_disables_auto() {
    let mut s = ScrollState::default();
    s.set_viewport_height(10);
    s.set_content_height(30);
    assert!(s.auto_scroll);

    s.scroll_up();
    assert!(!s.auto_scroll);
    assert_eq!(s.offset, 19);
}

#[test]
fn scroll_to_bottom_re_enables_auto() {
    let mut s = ScrollState::default();
    s.set_viewport_height(10);
    s.set_content_height(30);
    s.scroll_up();
    assert!(!s.auto_scroll);

    s.scroll_to_bottom();
    assert!(s.auto_scroll);
    assert_eq!(s.offset, 20);
}

#[test]
fn scroll_down_at_bottom_re_enables_auto() {
    let mut s = ScrollState::default();
    s.set_viewport_height(10);
    s.set_content_height(30);
    s.offset = 19;
    s.auto_scroll = false;

    s.scroll_down();
    assert!(s.auto_scroll);
    assert_eq!(s.offset, 20);
}

#[test]
fn paging_clamps_and_toggles_auto() {
    let mut s = ScrollState::default();
    s.set_viewport_height(10);
    s.set_content_height(35);
    assert_eq!(s.max_offset(), 25);
    s.page_up();
    assert_eq!(s.offset, 15);
    assert!(!s.auto_scroll);
    s.page_up();
    s.page_up();
    assert_eq!(s.offset, 0);
    s.page_down();
    assert_eq!(s.offset, 10);
    assert!(!s.auto_scroll);
    s.page_down();
    s.page_down();
    assert_eq!(s.offset, 25);
    assert!(s.auto_scroll);
}

#[test]
fn manual_position_kept_when_content_grows() {
    let mut s = ScrollState::default();
    s.set_viewport_height(10);
    s.set_content_height(30);
    s.scroll_up();
    s.set_content_height(50);
    assert_eq!(s.offset, 19);
    assert!(!s.auto_scroll);
}

#[test]
fn short_content_has_zero_offset() {
    let mut s = ScrollState::default();
    s.set_viewport_height(40);
    s.set_content_height(5);
    assert_eq!(s.offset, 0);
    s.scroll_down();
    assert_eq!(s.offset, 0);
    assert!(s.auto_scroll);
}
