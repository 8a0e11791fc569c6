use aclaude::tui::app::{portrait_needs_reload, portrait_size_name, PortraitSize};
use aclaude::tui::layout::{compute_layout, layout_from_splits, portrait_column_width, Rect};

fn rect(x: u16, y: u16, width: u16, height: u16) -> Rect {
    Rect { x, y, width, height }
}

#[test]
fn layout_with_portrait() {
    let l = compute_layout(rect(0, 0, 100, 40), PortraitSize::Medium, true);
    assert_eq!(l.input, rect(0, 36, 100, 3));
    assert_eq!(l.status, rect(0, 39, 100, 1));
    assert_eq!(l.conversation, rect(0, 0, 68, 36));
    assert_eq!(l.portrait, rect(68, 0, 32, 36));
}

#[test]
fn narrow_terminal_hides_portrait() {
    let l = compute_layout(rect(0, 0, 59, 20), PortraitSize::Small, true);
    assert_eq!(l.portrait, Rect::default());
    assert_eq!(l.conversation, rect(0, 0, 59, 16));
    let none = compute_layout(rect(0, 0, 120, 20), PortraitSize::Small, false);
    assert_eq!(none.portrait, rect(0, 0, 0, 0));
    assert_eq!(none.conversation.width, 120);
}

#[test]
fn portrait_widths() {
    assert_eq!(portrait_column_width(PortraitSize::Small, 200), 20);
    assert_eq!(portrait_column_width(PortraitSize::Medium, 200), 32);
    assert_eq!(portrait_column_width(PortraitSize::Large, 200), 48);
    assert_eq!(portrait_column_width(PortraitSize::Original, 90), 30);
    assert_eq!(portrait_column_width(PortraitSize::Original, 300), 64);
    assert_eq!(portrait_size_name(PortraitSize::Original), "original");
}

#[test]
fn layout_assembled_from_bands() {
    let v = vec![rect(0, 0, 80, 20), rect(0, 20, 80, 3), rect(0, 23, 80, 1)];
    let h = vec![rect(0, 0, 60, 20), rect(60, 0, 20, 20)];
    let with = layout_from_splits(&v, Some(&h));
    assert_eq!(with.conversation, h[0]);
    assert_eq!(with.portrait, h[1]);
    assert_eq!(with.input, v[1]);
    assert_eq!(with.status, v[2]);
    let without = layout_from_splits(&v, None);
    assert_eq!(without.conversation, v[0]);
    assert_eq!(without.portrait, Rect::default());
}

#[test]
fn layout_areas_stay_inside_terminal() {
    let area = rect(3, 2, 90, 30);
    let l = compute_layout(area, PortraitSize::Original, true);
    for r in [l.conversation, l.portrait, l.input, l.status] {
        assert!(r.x >= area.x && r.x + r.width <= area.x + area.width);
        assert!(r.y >= area.y && r.y + r.height <= area.y + area.height);
    }
    assert_eq!(l.input.width, area.width);
    assert_eq!(l.conversation.y, l.portrait.y);
    assert_eq!(l.conversation.height, l.portrait.height);
}

#[test]
fn portrait_reloads_only_on_a_new_path() {
    assert!(!portrait_needs_reload(Some("a/small.png"), Some("a/small.png")));
    assert!(portrait_needs_reload(Some("a/small.png"), Some("a/large.png")));
    assert!(portrait_needs_reload(None, Some("a/large.png")));
    assert!(portrait_needs_reload(Some("a/large.png"), None));
    assert!(!portrait_needs_reload(None, None));
}

#[test]
fn panes_tile_small_and_offset_terminals() {
    let area = rect(2, 1, 70, 4);
    let l = compute_layout(area, PortraitSize::Large, true);
    assert_eq!(l.conversation.y, 1);
    assert_eq!(l.conversation.y + l.conversation.height, l.input.y);
    assert_eq!(l.input.y + l.input.height, l.status.y);
    assert_eq!(l.status.y + l.status.height, 5);
    assert_eq!(l.portrait.x, l.conversation.x + l.conversation.width);
    assert_eq!(l.portrait.x + l.portrait.width, 72);
}

#[test]
fn layout_tiles_for_many_terminal_sizes() {
    let sizes = [PortraitSize::Small, PortraitSize::Medium, PortraitSize::Large, PortraitSize::Original];
    for &(x, y) in &[(0u16, 0u16), (5, 3)] {
        for height in 0u16..30 {
            for width in (0u16..200).step_by(7) {
                for &size in &sizes {
                    for has in [false, true] {
                        let area = rect(x, y, width, height);
                        let l = compute_layout(area, size, has);
                        let show = has && width >= 60;
                        assert_eq!(l.conversation.y, y);
                        assert_eq!(l.conversation.y + l.conversation.height, l.input.y);
                        assert_eq!(l.input.y + l.input.height, l.status.y);
                        assert_eq!(l.status.y + l.status.height, y + height);
                        assert_eq!((l.input.x, l.input.width), (x, width));
                        assert_eq!((l.status.x, l.status.width), (x, width));
                        if height >= 5 {
                            assert_eq!((l.input.height, l.status.height), (3, 1));
                        }
                        if show {
                            let w = portrait_column_width(size, width);
                            assert_eq!(l.conversation.x, x);
                            assert_eq!(l.portrait.x, l.conversation.x + l.conversation.width);
                            assert_eq!(l.portrait.x + l.portrait.width, x + width);
                            assert_eq!(l.portrait.width, w);
                            assert_eq!((l.portrait.y, l.portrait.height), (l.conversation.y, l.conversation.height));
                        } else {
                            assert_eq!(l.portrait, Rect::default());
                            assert_eq!((l.conversation.x, l.conversation.width), (x, width));
                        }
                    }
                }
            }
        }
    }
}
