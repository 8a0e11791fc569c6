//! Layout computation for the TUI.
//!
//! ```text
//! ┌─────────────────────────────┬──────────┐
//! │ CONVERSATION VIEWPORT       │ PORTRAIT │
//! │ (scrollable)                │ (upper   │
//! │                             │  right)  │
//! ├─────────────────────────────┴──────────┤
//! │ > INPUT AREA                            │
//! ├─────────────────────────────────────────┤
//! │ STATUS BAR                              │
//! └─────────────────────────────────────────┘
//! ```

use vstd::prelude::*;

use ratatui::layout as rl;

use crate::tui::app::PortraitSize;

verus! {

/// A rectangle of terminal cells.
#[derive(Debug, Clone, Copy, PartialEq, Eq)]
pub struct Rect {
    pub x: u16,
    pub y: u16,
    pub width: u16,
    pub height: u16,
}

impl Default for Rect {
    /// The zero-size rectangle at the origin.
    fn default() -> (r: Self)
        ensures
            r == (Rect { x: 0, y: 0, width: 0, height: 0 }),
    {
        Rect { x: 0, y: 0, width: 0, height: 0 }
    }
}

/// A size constraint on one area of a split.
#[derive(Debug, Clone, Copy, PartialEq, Eq)]
pub enum Constraint {
    /// At least this many cells.
    Min(u16),
    /// Exactly this many cells.
    Length(u16),
}

/// The direction an area is split in.
#[derive(Debug, Clone, Copy, PartialEq, Eq)]
pub enum Direction {
    Horizontal,
    Vertical,
}

/// Computed layout areas for a single frame.
#[derive(Debug, Clone, Copy, PartialEq, Eq)]
pub struct TuiLayout {
    /// Conversation viewport (scrollable text).
    pub conversation: Rect,
    /// Portrait area (upper-right, may be zero-size).
    pub portrait: Rect,
    /// User input area.
    pub input: Rect,
    /// Status bar.
    pub status: Rect,
}

/// Minimum terminal width to show portrait column.
pub const MIN_WIDTH_FOR_PORTRAIT: u16 = 60;

/// Input area height in rows.
pub const INPUT_HEIGHT: u16 = 3;

/// Status bar height in rows.
pub const STATUS_HEIGHT: u16 = 1;

/// `r` lies inside `a`.
pub open spec fn inside(r: Rect, a: Rect) -> bool {
    &&& a.x <= r.x
    &&& r.x + r.width <= a.x + a.width
    &&& a.y <= r.y
    &&& r.y + r.height <= a.y + a.height
}

/// Where `r` starts along `d`.
pub open spec fn lo(d: Direction, r: Rect) -> int {
    match d {
        Direction::Vertical => r.y as int,
        Direction::Horizontal => r.x as int,
    }
}

/// How far `r` extends along `d`.
pub open spec fn extent(d: Direction, r: Rect) -> int {
    match d {
        Direction::Vertical => r.height as int,
        Direction::Horizontal => r.width as int,
    }
}

/// Where `r` ends along `d`.
pub open spec fn hi(d: Direction, r: Rect) -> int {
    lo(d, r) + extent(d, r)
}

/// Where `a` ends along `d` as ratatui takes it (`Rect::bottom` and
/// `Rect::right` saturate at `u16::MAX`).
pub open spec fn area_end(d: Direction, a: Rect) -> int {
    if hi(d, a) > 65535 {
        65535
    } else {
        hi(d, a)
    }
}

/// `r` spans `a` across the direction `d`.
pub open spec fn spans_across(d: Direction, r: Rect, a: Rect) -> bool {
    match d {
        Direction::Vertical => r.x == a.x && r.width == a.width,
        Direction::Horizontal => r.y == a.y && r.height == a.height,
    }
}

/// A constraint list of the shape the frame layout uses: a `Min` band,
/// then `Length` bands.
pub open spec fn min_then_lengths(cs: Seq<Constraint>) -> bool {
    &&& cs.len() >= 1
    &&& cs[0] is Min
    &&& forall|i: int| 1 <= i < cs.len() ==> #[trigger] cs[i] is Length
}

/// The cells a constraint asks for.
pub open spec fn constraint_cells(c: Constraint) -> int {
    match c {
        Constraint::Min(n) => n as int,
        Constraint::Length(n) => n as int,
    }
}

/// The cells all constraints ask for together.
pub open spec fn cells_needed(cs: Seq<Constraint>) -> int
    decreases cs.len(),
{
    if cs.len() == 0 {
        0
    } else {
        cells_needed(cs.drop_last()) + constraint_cells(cs.last())
    }
}

/// `bands` tile `a` along `d` in order: each spans `a` across `d`; the
/// first starts where `a` starts, each ends where the next starts, and
/// the last ends where `a` ends.
pub open spec fn tiles(d: Direction, a: Rect, bands: Seq<Rect>) -> bool {
    &&& bands.len() >= 1
    &&& forall|i: int| 0 <= i < bands.len() ==> spans_across(d, #[trigger] bands[i], a)
    &&& lo(d, bands[0]) == lo(d, a)
    &&& forall|i: int| 0 <= i < bands.len() - 1 ==> #[trigger] hi(d, bands[i]) == lo(d, bands[i + 1])
    &&& hi(d, bands.last()) == area_end(d, a)
}

/// What a split of `a` along `d` by `cs` gives: one band per constraint,
/// tiling `a` in constraint order; when `a` has room for every constraint,
/// each `Length` band has exactly its length (the `Min` band takes the
/// rest).
pub open spec fn split_outcome(d: Direction, cs: Seq<Constraint>, a: Rect, bands: Seq<Rect>) -> bool {
    &&& bands.len() == cs.len()
    &&& tiles(d, a, bands)
    &&& (hi(d, a) <= 65535 && extent(d, a) >= cells_needed(cs)) ==> forall|i: int|
        1 <= i < cs.len() ==> extent(d, #[trigger] bands[i]) == constraint_cells(cs[i])
}

/// `ratatui::layout::Layout::split` (default flex, no margin, no spacing)
/// of `area` along `direction`, for a `Min` constraint followed by
/// `Length` constraints.
///
/// Its solver picks sizes that minimise weighted constraint errors; it
/// walks hash maps, so which optimum it picks among equally good ones is
/// not fixed, and no name is given to the result. What holds of every
/// optimum is stated. Its required constraints pin the first boundary to
/// the area's start, the last to the area's end (`right()`/`bottom()`),
/// keep every boundary inside, and keep each band's start before its end.
/// The spacers between bands (strength `REQUIRED/10`) and the first
/// (`REQUIRED - 1`) cost more per cell than any band constraint can
/// (`MIN_SIZE_GE` is `STRONG * 100`, plus `FILL_GROW` and two
/// `ALL_SEGMENT_GROW`), and the last spacer only grows at `GROW`, below
/// the `Min` band's `FILL_GROW`: so every optimum leaves no spacer, and
/// the bands tile the area in order. With room for every constraint, a
/// `Length` band off its length by a cell costs `LENGTH_SIZE_EQ` (`STRONG
/// * 10`) against at most `FILL_GROW` and two `ALL_SEGMENT_GROW` gained,
/// so each keeps its length. Cells are whole numbers, so the rounding in
/// `changes_to_rects` keeps these equalities.
#[verifier::external_body]
fn layout_split(direction: Direction, constraints: &Vec<Constraint>, area: Rect) -> (r: Vec<Rect>)
    requires
        min_then_lengths(constraints@),
    ensures
        split_outcome(direction, constraints@, area, r@),
{
    let d = match direction {
        Direction::Horizontal => rl::Direction::Horizontal,
        Direction::Vertical => rl::Direction::Vertical,
    };
    let cs: Vec<rl::Constraint> = constraints.iter().map(|c| match c {
        Constraint::Min(n) => rl::Constraint::Min(*n),
        Constraint::Length(n) => rl::Constraint::Length(*n),
    }).collect();
    let a = rl::Rect { x: area.x, y: area.y, width: area.width, height: area.height };
    let parts = rl::Layout::default().direction(d).constraints(cs).split(a);
    parts.iter().map(|p| Rect { x: p.x, y: p.y, width: p.width, height: p.height }).collect()
}

/// Portrait column width for a size setting: fixed for small, medium and
/// large; a third of the terminal, at most 64, for original.
pub open spec fn portrait_width_spec(size: PortraitSize, terminal_width: u16) -> u16 {
    match size {
        PortraitSize::Small => 20,
        PortraitSize::Medium => 32,
        PortraitSize::Large => 48,
        PortraitSize::Original => if terminal_width / 3 < 64 { terminal_width / 3 } else { 64 },
    }
}

/// The zero-size rectangle at the origin.
pub open spec fn zero_rect() -> Rect {
    Rect { x: 0, y: 0, width: 0, height: 0 }
}

/// Whether the portrait column shows: there is a portrait and the
/// terminal is at least 60 columns wide.
pub open spec fn shows_portrait(area: Rect, has_portrait: bool) -> bool {
    has_portrait && area.width >= MIN_WIDTH_FOR_PORTRAIT
}

/// The frame's areas from the bands of the vertical split (main area,
/// input, status) and, when the portrait shows, of the horizontal split of
/// the main area (conversation, portrait).
pub open spec fn layout_from_bands(vertical: Seq<Rect>, horizontal: Option<Seq<Rect>>) -> TuiLayout {
    match horizontal {
        Some(h) => TuiLayout { conversation: h[0], portrait: h[1], input: vertical[1], status: vertical[2] },
        None => TuiLayout {
            conversation: vertical[0],
            portrait: zero_rect(),
            input: vertical[1],
            status: vertical[2],
        },
    }
}

/// The vertical split of the terminal: main area, input, status.
pub open spec fn vertical_constraints() -> Seq<Constraint> {
    seq![Constraint::Min(1), Constraint::Length(INPUT_HEIGHT), Constraint::Length(STATUS_HEIGHT)]
}

/// The horizontal split of the main area: conversation, portrait column.
pub open spec fn horizontal_constraints(portrait_width: u16) -> Seq<Constraint> {
    seq![Constraint::Min(1), Constraint::Length(portrait_width)]
}

/// The frame assembled from the split bands; `h` is used only when the
/// portrait shows.
pub open spec fn layout_of(v: Seq<Rect>, h: Seq<Rect>, show: bool) -> TuiLayout {
    layout_from_bands(
        v,
        if show {
            Some(h)
        } else {
            None
        },
    )
}

/// The frame layout: the terminal split vertically by `[Min(1),
/// Length(3), Length(1)]` into main area, input and status; when the
/// portrait shows, the main area split horizontally by `[Min(1),
/// Length(w)]` into conversation and portrait, `w` the portrait column
/// width; the panes taken from those bands.
pub open spec fn layout_holds(area: Rect, portrait_size: PortraitSize, has_portrait: bool, r: TuiLayout) -> bool {
    exists|v: Seq<Rect>, h: Seq<Rect>|
        #![trigger layout_of(v, h, shows_portrait(area, has_portrait))]
        split_outcome(Direction::Vertical, vertical_constraints(), area, v) && (shows_portrait(
            area,
            has_portrait,
        ) ==> split_outcome(
            Direction::Horizontal,
            horizontal_constraints(portrait_width_spec(portrait_size, area.width)),
            v[0],
            h,
        )) && r == layout_of(v, h, shows_portrait(area, has_portrait))
}

/// The frame's areas from the split results.
pub fn layout_from_splits(vertical: &Vec<Rect>, horizontal: Option<&Vec<Rect>>) -> (r: TuiLayout)
    requires
        vertical@.len() == 3,
        horizontal matches Some(h) ==> h@.len() == 2,
    ensures
        r == layout_from_bands(
            vertical@,
            match horizontal {
                Some(h) => Some(h@),
                None => None,
            },
        ),
{
    match horizontal {
        Some(h) => TuiLayout { conversation: h[0], portrait: h[1], input: vertical[1], status: vertical[2] },
        None => TuiLayout { conversation: vertical[0], portrait: Rect::default(), input: vertical[1], status: vertical[2] },
    }
}

/// Portrait column width for a given size setting.
pub fn portrait_column_width(size: PortraitSize, terminal_width: u16) -> (r: u16)
    ensures
        r == portrait_width_spec(size, terminal_width),
{
    match size {
        PortraitSize::Small => 20,
        PortraitSize::Medium => 32,
        PortraitSize::Large => 48,
        PortraitSize::Original => {
            let third = terminal_width / 3;
            if third < 64 {
                third
            } else {
                64
            }
        },
    }
}

/// Compute layout for the given terminal size and portrait configuration.
pub fn compute_layout(area: Rect, portrait_size: PortraitSize, has_portrait: bool) -> (r: TuiLayout)
    ensures
        layout_holds(area, portrait_size, has_portrait, r),
{
    let vc = vec![Constraint::Min(1), Constraint::Length(INPUT_HEIGHT), Constraint::Length(STATUS_HEIGHT)];
    assert(vc@ =~= vertical_constraints());
    let vertical = layout_split(Direction::Vertical, &vc, area);
    let show_portrait = has_portrait && area.width >= MIN_WIDTH_FOR_PORTRAIT;
    if show_portrait {
        let portrait_width = portrait_column_width(portrait_size, area.width);
        let hc = vec![Constraint::Min(1), Constraint::Length(portrait_width)];
        assert(hc@ =~= horizontal_constraints(portrait_width));
        let horizontal = layout_split(Direction::Horizontal, &hc, vertical[0]);
        let r = layout_from_splits(&vertical, Some(&horizontal));
        assert(r == layout_of(vertical@, horizontal@, shows_portrait(area, has_portrait)));
        r
    } else {
        let r = layout_from_splits(&vertical, None);
        assert(r == layout_of(vertical@, vertical@, shows_portrait(area, has_portrait)));
        r
    }
}

// ── Laws ─────────────────────────────────────────────────────────────────

/// The panes stack and tile the terminal: the conversation (with the
/// portrait beside it) from the top, then the input, then the status at
/// the bottom; input and status span the full width; without a portrait
/// the portrait area is empty and the conversation spans the full width;
/// with one, the conversation starts at the left edge and the portrait
/// runs from its right edge to the terminal's.
pub proof fn lemma_panes_tile(area: Rect, portrait_size: PortraitSize, has_portrait: bool, r: TuiLayout)
    requires
        layout_holds(area, portrait_size, has_portrait, r),
    ensures
        r.conversation.y == area.y,
        r.conversation.y + r.conversation.height == r.input.y,
        r.input.y + r.input.height == r.status.y,
        r.status.y + r.status.height == area_end(Direction::Vertical, area),
        r.input.x == area.x && r.input.width == area.width,
        r.status.x == area.x && r.status.width == area.width,
        !shows_portrait(area, has_portrait) ==> r.portrait == zero_rect() && r.conversation.x
            == area.x && r.conversation.width == area.width,
        shows_portrait(area, has_portrait) ==> {
            &&& r.conversation.x == area.x
            &&& r.portrait.x == r.conversation.x + r.conversation.width
            &&& r.portrait.x + r.portrait.width == area_end(Direction::Horizontal, area)
            &&& r.portrait.y == r.conversation.y
            &&& r.portrait.height == r.conversation.height
        },
{
    let show = shows_portrait(area, has_portrait);
    let (v, h) = choose|v: Seq<Rect>, h: Seq<Rect>|
        #![trigger layout_of(v, h, shows_portrait(area, has_portrait))]
        split_outcome(Direction::Vertical, vertical_constraints(), area, v) && (show ==> split_outcome(
            Direction::Horizontal,
            horizontal_constraints(portrait_width_spec(portrait_size, area.width)),
            v[0],
            h,
        )) && r == layout_of(v, h, show);
    assert(spans_across(Direction::Vertical, v[0], area));
    assert(spans_across(Direction::Vertical, v[1], area));
    assert(spans_across(Direction::Vertical, v[2], area));
    assert(hi(Direction::Vertical, v[0]) == lo(Direction::Vertical, v[1]));
    assert(hi(Direction::Vertical, v[1]) == lo(Direction::Vertical, v[2]));
    if show {
        assert(spans_across(Direction::Horizontal, h[0], v[0]));
        assert(spans_across(Direction::Horizontal, h[1], v[0]));
        assert(hi(Direction::Horizontal, h[0]) == lo(Direction::Horizontal, h[1]));
    }
}

/// On a terminal with room for every pane (at least 5 rows, and no edge
/// past `u16::MAX`), the input is 3 rows, the status 1 row and the
/// conversation the rest; a shown portrait column has its configured
/// width and the conversation the rest of the row.
pub proof fn lemma_pane_sizes(area: Rect, portrait_size: PortraitSize, has_portrait: bool, r: TuiLayout)
    requires
        layout_holds(area, portrait_size, has_portrait, r),
        area.y + area.height <= 65535,
        area.x + area.width <= 65535,
        area.height >= 5,
    ensures
        r.input.height == INPUT_HEIGHT,
        r.status.height == STATUS_HEIGHT,
        r.conversation.height == area.height - 5 + 1,
        shows_portrait(area, has_portrait) ==> r.portrait.width == portrait_width_spec(
            portrait_size,
            area.width,
        ) && r.conversation.width == area.width - portrait_width_spec(portrait_size, area.width),
{
    lemma_panes_tile(area, portrait_size, has_portrait, r);
    let show = shows_portrait(area, has_portrait);
    let (v, h) = choose|v: Seq<Rect>, h: Seq<Rect>|
        #![trigger layout_of(v, h, shows_portrait(area, has_portrait))]
        split_outcome(Direction::Vertical, vertical_constraints(), area, v) && (show ==> split_outcome(
            Direction::Horizontal,
            horizontal_constraints(portrait_width_spec(portrait_size, area.width)),
            v[0],
            h,
        )) && r == layout_of(v, h, show);
    let vc = vertical_constraints();
    assert(cells_needed(vc) == 5) by {
        let one = vc.drop_last().drop_last();
        assert(one.drop_last() =~= Seq::<Constraint>::empty());
        assert(cells_needed(one.drop_last()) == 0);
        assert(one.last() == Constraint::Min(1));
        assert(cells_needed(one) == 1);
        assert(cells_needed(vc.drop_last()) == 4);
    }
    assert(extent(Direction::Vertical, v[1]) == constraint_cells(vc[1]));
    assert(extent(Direction::Vertical, v[2]) == constraint_cells(vc[2]));
    if show {
        let w = portrait_width_spec(portrait_size, area.width);
        let hc = horizontal_constraints(w);
        assert(cells_needed(hc) == 1 + w) by {
            let one = hc.drop_last();
            assert(one.drop_last() =~= Seq::<Constraint>::empty());
            assert(cells_needed(one.drop_last()) == 0);
            assert(one.last() == Constraint::Min(1));
            assert(cells_needed(one) == 1);
        }
        assert(spans_across(Direction::Vertical, v[0], area));
        assert(extent(Direction::Horizontal, h[1]) == constraint_cells(hc[1]));
    }
}

/// Every pane lies inside the terminal.
pub proof fn lemma_areas_inside(area: Rect, portrait_size: PortraitSize, has_portrait: bool, r: TuiLayout)
    requires
        layout_holds(area, portrait_size, has_portrait, r),
    ensures
        inside(r.conversation, area),
        inside(r.portrait, area) || r.portrait == zero_rect(),
        inside(r.input, area),
        inside(r.status, area),
{
    lemma_panes_tile(area, portrait_size, has_portrait, r);
}

/// Without a portrait, or on a terminal narrower than 60 columns, the
/// portrait area is empty and the conversation spans the full width.
pub proof fn lemma_no_portrait_column(area: Rect, portrait_size: PortraitSize, has_portrait: bool, r: TuiLayout)
    requires
        layout_holds(area, portrait_size, has_portrait, r),
        !has_portrait || area.width < MIN_WIDTH_FOR_PORTRAIT,
    ensures
        r.portrait == zero_rect(),
        r.conversation.x == area.x && r.conversation.width == area.width,
{
    lemma_panes_tile(area, portrait_size, has_portrait, r);
}

/// The portrait column is never wider than 64 cells.
pub proof fn lemma_portrait_width_bounded(size: PortraitSize, terminal_width: u16)
    ensures
        portrait_width_spec(size, terminal_width) <= 64,
{
}

} // verus!
