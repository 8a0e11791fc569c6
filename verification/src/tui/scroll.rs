//! Scroll state for the conversation viewport.

use vstd::prelude::*;

verus! {

/// Tracks scroll position with auto-scroll behavior.
///
/// Auto-scroll follows new content as it arrives. Manual scrolling
/// (arrow keys, page up) disables auto-scroll. End key re-enables it.
#[derive(Debug)]
pub struct ScrollState {
    /// Current scroll offset (lines from top).
    pub offset: u16,
    /// Total content height in lines.
    pub content_height: u16,
    /// Visible viewport height in lines.
    pub viewport_height: u16,
    /// Whether to automatically follow new content.
    pub auto_scroll: bool,
}

/// The largest offset that still fills the viewport.
pub open spec fn max_offset_of(s: ScrollState) -> u16 {
    if s.content_height > s.viewport_height {
        (s.content_height - s.viewport_height) as u16
    } else {
        0
    }
}

/// The offset after following content: the bottom when auto-scrolling.
pub open spec fn follow(s: ScrollState) -> ScrollState {
    if s.auto_scroll {
        ScrollState { offset: max_offset_of(s), ..s }
    } else {
        s
    }
}

/// The state after a one-line or one-page move down by `step`: clamped to
/// the bottom, and auto-scrolling again once the bottom is reached.
pub open spec fn moved_down(s: ScrollState, step: int) -> ScrollState {
    let max = max_offset_of(s);
    let o = if s.offset + step < max { (s.offset + step) as u16 } else { max };
    ScrollState { offset: o, auto_scroll: o >= max, ..s }
}

/// The operations on a scroll state.
pub enum ScrollOp {
    SetContentHeight(u16),
    SetViewportHeight(u16),
    ScrollUp,
    ScrollDown,
    PageUp,
    PageDown,
    ScrollToBottom,
}

/// Whether `op` can be applied to `s` without the offset overflowing.
pub open spec fn op_fits(s: ScrollState, op: ScrollOp) -> bool {
    match op {
        ScrollOp::ScrollDown => s.offset < u16::MAX,
        ScrollOp::PageDown => s.offset + s.viewport_height <= u16::MAX,
        _ => true,
    }
}

/// The state after `op`.
pub open spec fn apply_op(s: ScrollState, op: ScrollOp) -> ScrollState {
    match op {
        ScrollOp::SetContentHeight(h) => follow(ScrollState { content_height: h, ..s }),
        ScrollOp::SetViewportHeight(h) => follow(ScrollState { viewport_height: h, ..s }),
        ScrollOp::ScrollUp => ScrollState {
            auto_scroll: false,
            offset: if s.offset >= 1 { (s.offset - 1) as u16 } else { 0 },
            ..s
        },
        ScrollOp::ScrollDown => moved_down(s, 1),
        ScrollOp::PageUp => ScrollState {
            auto_scroll: false,
            offset: if s.offset >= s.viewport_height { (s.offset - s.viewport_height) as u16 } else { 0 },
            ..s
        },
        ScrollOp::PageDown => moved_down(s, s.viewport_height as int),
        ScrollOp::ScrollToBottom => ScrollState { auto_scroll: true, offset: max_offset_of(s), ..s },
    }
}

impl Default for ScrollState {
    fn default() -> (r: Self)
        ensures
            r.offset == 0,
            r.content_height == 0,
            r.viewport_height == 0,
            r.auto_scroll,
    {
        Self { offset: 0, content_height: 0, viewport_height: 0, auto_scroll: true }
    }
}

impl ScrollState {
    /// Maximum valid scroll offset.
    pub fn max_offset(&self) -> (r: u16)
        ensures
            r == max_offset_of(*self),
    {
        self.content_height.saturating_sub(self.viewport_height)
    }

    /// Update content height and auto-scroll to bottom if enabled.
    pub fn set_content_height(&mut self, height: u16)
        ensures
            *final(self) == apply_op(*old(self), ScrollOp::SetContentHeight(height)),
    {
        self.content_height = height;
        if self.auto_scroll {
            self.offset = self.max_offset();
        }
    }

    /// Update viewport height.
    pub fn set_viewport_height(&mut self, height: u16)
        ensures
            *final(self) == apply_op(*old(self), ScrollOp::SetViewportHeight(height)),
    {
        self.viewport_height = height;
        if self.auto_scroll {
            self.offset = self.max_offset();
        }
    }

    /// Scroll up by one line. Disables auto-scroll.
    pub fn scroll_up(&mut self)
        ensures
            *final(self) == apply_op(*old(self), ScrollOp::ScrollUp),
    {
        self.auto_scroll = false;
        self.offset = self.offset.saturating_sub(1);
    }

    /// Scroll down by one line; at the bottom auto-scroll resumes.
    pub fn scroll_down(&mut self)
        requires
            old(self).offset < u16::MAX,
        ensures
            *final(self) == apply_op(*old(self), ScrollOp::ScrollDown),
    {
        self.auto_scroll = false;
        let max = self.max_offset();
        let next = self.offset + 1;
        self.offset = if next < max { next } else { max };
        if self.offset >= max {
            self.auto_scroll = true;
        }
    }

    /// Scroll up by a page. Disables auto-scroll.
    pub fn page_up(&mut self)
        ensures
            *final(self) == apply_op(*old(self), ScrollOp::PageUp),
    {
        self.auto_scroll = false;
        self.offset = self.offset.saturating_sub(self.viewport_height);
    }

    /// Scroll down by a page; at the bottom auto-scroll resumes.
    pub fn page_down(&mut self)
        requires
            old(self).offset + old(self).viewport_height <= u16::MAX,
        ensures
            *final(self) == apply_op(*old(self), ScrollOp::PageDown),
    {
        self.auto_scroll = false;
        let max = self.max_offset();
        let next = self.offset + self.viewport_height;
        self.offset = if next < max { next } else { max };
        if self.offset >= max {
            self.auto_scroll = true;
        }
    }

    /// Jump to bottom and re-enable auto-scroll.
    pub fn scroll_to_bottom(&mut self)
        ensures
            *final(self) == apply_op(*old(self), ScrollOp::ScrollToBottom),
    {
        self.auto_scroll = true;
        self.offset = self.max_offset();
    }
}

// ── Laws ─────────────────────────────────────────────────────────────────

/// Resizing follows the bottom only while auto-scrolling. A new viewport
/// or content height is recorded, the other height is kept and
/// auto-scroll is unchanged. Without auto-scroll the offset stays where
/// the reader left it; with it, the offset moves to the last page,
/// `content_height - viewport_height` or 0.
pub proof fn lemma_resize_keeps_manual_position(s: ScrollState, h: u16)
    ensures
        apply_op(s, ScrollOp::SetViewportHeight(h)).viewport_height == h,
        apply_op(s, ScrollOp::SetViewportHeight(h)).content_height == s.content_height,
        apply_op(s, ScrollOp::SetViewportHeight(h)).auto_scroll == s.auto_scroll,
        apply_op(s, ScrollOp::SetContentHeight(h)).content_height == h,
        apply_op(s, ScrollOp::SetContentHeight(h)).viewport_height == s.viewport_height,
        apply_op(s, ScrollOp::SetContentHeight(h)).auto_scroll == s.auto_scroll,
        !s.auto_scroll ==> apply_op(s, ScrollOp::SetViewportHeight(h)).offset == s.offset,
        !s.auto_scroll ==> apply_op(s, ScrollOp::SetContentHeight(h)).offset == s.offset,
        s.auto_scroll ==> apply_op(s, ScrollOp::SetViewportHeight(h)).offset == if s.content_height > h {
            s.content_height - h
        } else {
            0
        },
        s.auto_scroll ==> apply_op(s, ScrollOp::SetContentHeight(h)).offset == if h > s.viewport_height {
            h - s.viewport_height
        } else {
            0
        },
{
}

/// Scrolling moves the offset by one line or one viewport, never past the
/// top or the last page, and leaves both heights alone. Scrolling up
/// stops auto-scroll; scrolling down resumes it exactly on reaching the
/// last page; jumping to the bottom lands on the last page with
/// auto-scroll on.
pub proof fn lemma_scroll_moves(s: ScrollState, op: ScrollOp)
    requires
        op_fits(s, op),
        op is ScrollUp || op is ScrollDown || op is PageUp || op is PageDown || op is ScrollToBottom,
    ensures
        apply_op(s, op).content_height == s.content_height,
        apply_op(s, op).viewport_height == s.viewport_height,
        ({
            let last = if s.content_height > s.viewport_height {
                s.content_height - s.viewport_height
            } else {
                0
            };
            let n = apply_op(s, op);
            &&& op is ScrollUp ==> !n.auto_scroll && n.offset == if s.offset >= 1 {
                s.offset - 1
            } else {
                0
            }
            &&& op is PageUp ==> !n.auto_scroll && n.offset == if s.offset >= s.viewport_height {
                s.offset - s.viewport_height
            } else {
                0
            }
            &&& op is ScrollDown ==> n.offset == if s.offset + 1 < last {
                s.offset + 1
            } else {
                last
            } && n.auto_scroll == (n.offset == last)
            &&& op is PageDown ==> n.offset == if s.offset + s.viewport_height < last {
                s.offset + s.viewport_height
            } else {
                last
            } && n.auto_scroll == (n.offset == last)
            &&& op is ScrollToBottom ==> n.offset == last && n.auto_scroll
        }),
{
}

/// Auto-scroll pins the view to the bottom: after any operation, from any
/// state, an auto-scrolling state shows the last page.
pub proof fn lemma_auto_scroll_at_bottom(s: ScrollState, op: ScrollOp)
    requires
        op_fits(s, op),
    ensures
        apply_op(s, op).auto_scroll ==> apply_op(s, op).offset == max_offset_of(apply_op(s, op)),
{
}

/// Scrolling down, paging down and jumping to the bottom never move past
/// the bottom.
pub proof fn lemma_down_stays_in_range(s: ScrollState, op: ScrollOp)
    requires
        op_fits(s, op),
        op == ScrollOp::ScrollDown || op == ScrollOp::PageDown || op == ScrollOp::ScrollToBottom,
    ensures
        apply_op(s, op).offset <= max_offset_of(apply_op(s, op)),
{
}

/// Scrolling or paging down re-enables auto-scroll exactly when it
/// reaches the bottom.
pub proof fn lemma_down_to_bottom_resumes_auto(s: ScrollState, op: ScrollOp)
    requires
        op_fits(s, op),
        op == ScrollOp::ScrollDown || op == ScrollOp::PageDown,
    ensures
        apply_op(s, op).auto_scroll <==> apply_op(s, op).offset == max_offset_of(apply_op(s, op)),
{
}

/// Manual upward scrolling turns auto-scroll off; the end key turns it on.
pub proof fn lemma_manual_scroll_toggles_auto(s: ScrollState)
    ensures
        !apply_op(s, ScrollOp::ScrollUp).auto_scroll,
        !apply_op(s, ScrollOp::PageUp).auto_scroll,
        apply_op(s, ScrollOp::ScrollToBottom).auto_scroll,
{
}

/// Jumping to the bottom twice is the same as jumping once.
pub proof fn lemma_scroll_to_bottom_idempotent(s: ScrollState)
    ensures
        apply_op(apply_op(s, ScrollOp::ScrollToBottom), ScrollOp::ScrollToBottom) == apply_op(
            s,
            ScrollOp::ScrollToBottom,
        ),
{
}

/// While auto-scrolling, new content keeps the view on the last page.
pub proof fn lemma_auto_scroll_follows_content(s: ScrollState, h: u16)
    requires
        s.auto_scroll,
    ensures
        apply_op(s, ScrollOp::SetContentHeight(h)).offset == max_offset_of(
            apply_op(s, ScrollOp::SetContentHeight(h)),
        ),
        apply_op(s, ScrollOp::SetContentHeight(h)).auto_scroll,
{
}

} // verus!
