//! Tool call rendering with diff display.
//!
//! Dispatches rendering by tool name: Edit shows unified diffs, Read shows
//! file content preview, Bash shows command and output, Write shows path.
//! Line diffs come from `similar`; the lines are styled text that the
//! terminal front end draws.

use vstd::prelude::*;

use crate::json::{
    compact_json, get_str, json_compact_text, json_parse, member_str, or_text, parse_json,
    JsonValue,
};
use crate::text::{
    chars_of, contains_chars, contains_run, decimal, decimal_chars, lines_of, push_all,
    split_lines, string_from_chars, trim_end_newline_chars, trim_end_newlines, utf8_len,
    utf8_length, views,
};
use crate::tui::app::ToolCallItem;

verus! {

// ── Styled text ──────────────────────────────────────────────────────────

/// Foreground colours used by the renderers.
#[derive(Debug, Clone, Copy, PartialEq, Eq)]
pub enum Color {
    DarkGray,
    Yellow,
    Red,
    Green,
    White,
    Magenta,
    Cyan,
}

/// How a span is drawn: an optional foreground colour, bold, italic.
#[derive(Debug, Clone, Copy, PartialEq, Eq)]
pub struct SpanStyle {
    pub fg: Option<Color>,
    pub bold: bool,
    pub italic: bool,
}

/// A run of text in one style.
#[derive(Debug)]
pub struct StyledSpan {
    pub content: String,
    pub style: SpanStyle,
}

/// One line of styled text.
#[derive(Debug)]
pub struct StyledLine {
    pub spans: Vec<StyledSpan>,
}

pub struct SpanView {
    pub content: Seq<char>,
    pub style: SpanStyle,
}

impl View for StyledSpan {
    type V = SpanView;

    open spec fn view(&self) -> SpanView {
        SpanView { content: self.content@, style: self.style }
    }
}

impl View for StyledLine {
    type V = Seq<SpanView>;

    open spec fn view(&self) -> Seq<SpanView> {
        self.spans@.map_values(|s: StyledSpan| s@)
    }
}

/// The views of rendered lines.
pub open spec fn lines_view(v: Seq<StyledLine>) -> Seq<Seq<SpanView>> {
    v.map_values(|l: StyledLine| l@)
}

/// The default style: no colour, no emphasis.
pub open spec fn plain() -> SpanStyle {
    SpanStyle { fg: None, bold: false, italic: false }
}

/// A coloured style.
pub open spec fn colored(c: Color) -> SpanStyle {
    SpanStyle { fg: Some(c), bold: false, italic: false }
}

/// A coloured bold style.
pub open spec fn colored_bold(c: Color) -> SpanStyle {
    SpanStyle { fg: Some(c), bold: true, italic: false }
}

/// A coloured italic style.
pub open spec fn colored_italic(c: Color) -> SpanStyle {
    SpanStyle { fg: Some(c), bold: false, italic: true }
}

/// A line of one span.
pub open spec fn line1(content: Seq<char>, style: SpanStyle) -> Seq<SpanView> {
    seq![SpanView { content, style }]
}

/// A line of two spans.
pub open spec fn line2(a: Seq<char>, sa: SpanStyle, b: Seq<char>, sb: SpanStyle) -> Seq<SpanView> {
    seq![SpanView { content: a, style: sa }, SpanView { content: b, style: sb }]
}

/// The text of a line: its spans' contents, concatenated.
pub open spec fn line_text(l: Seq<SpanView>) -> Seq<char>
    decreases l.len(),
{
    if l.len() == 0 {
        Seq::empty()
    } else {
        line_text(l.drop_last()) + l.last().content
    }
}

fn style_plain() -> (r: SpanStyle)
    ensures
        r == plain(),
{
    SpanStyle { fg: None, bold: false, italic: false }
}

fn style_fg(c: Color) -> (r: SpanStyle)
    ensures
        r == colored(c),
{
    SpanStyle { fg: Some(c), bold: false, italic: false }
}

fn style_fg_bold(c: Color) -> (r: SpanStyle)
    ensures
        r == colored_bold(c),
{
    SpanStyle { fg: Some(c), bold: true, italic: false }
}

fn make_line1(a: &[char], sa: SpanStyle) -> (r: StyledLine)
    ensures
        r@ == line1(a@, sa),
{
    let spans = vec![StyledSpan { content: string_from_chars(a), style: sa }];
    let r = StyledLine { spans };
    assert(r@ =~= line1(a@, sa));
    r
}

fn make_line2(a: &[char], sa: SpanStyle, b: &[char], sb: SpanStyle) -> (r: StyledLine)
    ensures
        r@ == line2(a@, sa, b@, sb),
{
    let spans = vec![
        StyledSpan { content: string_from_chars(a), style: sa },
        StyledSpan { content: string_from_chars(b), style: sb },
    ];
    let r = StyledLine { spans };
    assert(r@ =~= line2(a@, sa, b@, sb));
    r
}

/// Characters of `a` followed by those of `b`.
fn concat(a: &[char], b: &[char]) -> (r: Vec<char>)
    ensures
        r@ == a@ + b@,
{
    let mut r: Vec<char> = Vec::new();
    push_all(&mut r, a);
    push_all(&mut r, b);
    assert(r@ =~= a@ + b@);
    r
}

/// Appends `more` to `lines`.
fn extend_lines(lines: &mut Vec<StyledLine>, more: Vec<StyledLine>)
    ensures
        lines_view(final(lines)@) == lines_view(old(lines)@) + lines_view(more@),
{
    let mut more = more;
    let ghost a = lines@;
    let ghost b = more@;
    lines.append(&mut more);
    assert(lines_view(lines@) =~= lines_view(a) + lines_view(b));
}

/// Pushes `l` onto `lines`.
fn push_line(lines: &mut Vec<StyledLine>, l: StyledLine)
    ensures
        lines_view(final(lines)@) == lines_view(old(lines)@).push(l@),
{
    let ghost a = lines@;
    let ghost v = l@;
    lines.push(l);
    assert(lines_view(lines@) =~= lines_view(a).push(v));
}

impl StyledLine {
    /// The line's text: its spans' contents, concatenated.
    pub fn to_text(&self) -> (r: String)
        ensures
            r@ == line_text(self@),
    {
        let mut cs: Vec<char> = Vec::new();
        let mut i: usize = 0;
        while i < self.spans.len()
            invariant
                i <= self.spans@.len(),
                cs@ == line_text(self@.take(i as int)),
            decreases self.spans@.len() - i,
        {
            assert(self@.take(i + 1).drop_last() =~= self@.take(i as int));
            let part = chars_of(self.spans[i].content.as_str());
            push_all(&mut cs, part.as_slice());
            i = i + 1;
        }
        assert(self@.take(self.spans@.len() as int) =~= self@);
        string_from_chars(cs.as_slice())
    }
}

// ── Tool output preview ──────────────────────────────────────────────────

/// Maximum lines of tool output to show when collapsed.
pub const MAX_PREVIEW_LINES: usize = 12;

/// Context lines around diff changes.
pub const DIFF_CONTEXT: usize = 3;

/// The preview of a tool result: each line indented and dimmed; when
/// collapsed, at most 12 lines and then a note of how many more there are.
pub open spec fn preview_spec(result: Seq<char>, expanded: bool) -> Seq<Seq<SpanView>> {
    let ls = lines_of(result);
    let hidden = !expanded && ls.len() > MAX_PREVIEW_LINES;
    let shown = if hidden { ls.take(MAX_PREVIEW_LINES as int) } else { ls };
    let body = shown.map_values(|l: Seq<char>| line1("    "@ + l, colored(Color::DarkGray)));
    if hidden {
        body.push(
            line1(
                "    [... "@ + decimal((ls.len() - MAX_PREVIEW_LINES) as nat) + " more lines]"@,
                colored_italic(Color::DarkGray),
            ),
        )
    } else {
        body
    }
}

/// Render a tool result (output) into displayable lines.
pub fn render_result_preview(result: &str, expanded: bool) -> (r: Vec<StyledLine>)
    ensures
        lines_view(r@) == preview_spec(result@, expanded),
{
    let cs = chars_of(result);
    let ls = split_lines(&cs);
    let total = ls.len();
    let hidden = !expanded && total > MAX_PREVIEW_LINES;
    let shown = if hidden { MAX_PREVIEW_LINES } else { total };
    let indent = chars_of("    ");
    let mut lines: Vec<StyledLine> = Vec::new();
    let mut i: usize = 0;
    while i < shown
        invariant
            shown <= total,
            total == ls@.len(),
            views(ls@) == lines_of(result@),
            indent@ == "    "@,
            i <= shown,
            lines@.len() == i,
            forall|k: int| 0 <= k < i ==> #[trigger] lines@[k]@ == line1(
                "    "@ + lines_of(result@)[k],
                colored(Color::DarkGray),
            ),
        decreases shown - i,
    {
        let text = concat(indent.as_slice(), ls[i].as_slice());
        assert(ls@[i as int]@ == lines_of(result@)[i as int]);
        let l = make_line1(text.as_slice(), style_fg(Color::DarkGray));
        lines.push(l);
        i = i + 1;
    }
    proof {
        let ls_s = lines_of(result@);
        let shown_s = if hidden { ls_s.take(MAX_PREVIEW_LINES as int) } else { ls_s };
        let body = shown_s.map_values(|l: Seq<char>| line1("    "@ + l, colored(Color::DarkGray)));
        assert(lines_view(lines@) =~= body);
    }
    if hidden {
        let mut note = chars_of("    [... ");
        let count = decimal_chars((total - MAX_PREVIEW_LINES) as u64);
        push_all(&mut note, count.as_slice());
        let tail = chars_of(" more lines]");
        push_all(&mut note, tail.as_slice());
        let style = SpanStyle { fg: Some(Color::DarkGray), bold: false, italic: true };
        let l = make_line1(note.as_slice(), style);
        push_line(&mut lines, l);
    }
    lines
}

/// A collapsed preview shows at most 12 result lines plus the note; an
/// expanded one shows every result line and nothing else.
pub proof fn lemma_preview_size(result: Seq<char>, expanded: bool)
    ensures
        !expanded ==> preview_spec(result, expanded).len() <= MAX_PREVIEW_LINES + 1,
        expanded ==> preview_spec(result, expanded).len() == lines_of(result).len(),
        preview_spec(result, expanded).len() >= if lines_of(result).len() < MAX_PREVIEW_LINES {
            lines_of(result).len()
        } else {
            MAX_PREVIEW_LINES as nat
        },
{
}

/// The preview shows the result's lines in order, each indented by four
/// spaces and dimmed. Expanded, it shows all of them and nothing else.
/// Collapsed, it shows at most the first 12; when there are more, one
/// italic note follows saying how many lines are hidden.
pub proof fn lemma_preview_lines(result: Seq<char>, expanded: bool)
    ensures
        ({
            let ls = lines_of(result);
            let p = preview_spec(result, expanded);
            let shown = if !expanded && ls.len() > 12 { 12 } else { ls.len() as int };
            &&& forall|i: int| 0 <= i < shown ==> #[trigger] p[i] == seq![SpanView {
                content: seq![' ', ' ', ' ', ' '] + ls[i],
                style: SpanStyle { fg: Some(Color::DarkGray), bold: false, italic: false },
            }]
            &&& expanded ==> p.len() == ls.len()
            &&& !expanded && ls.len() <= 12 ==> p.len() == ls.len()
            &&& !expanded && ls.len() > 12 ==> p.len() == 13 && p[12] == seq![SpanView {
                content: "    [... "@ + decimal((ls.len() - 12) as nat) + " more lines]"@,
                style: SpanStyle { fg: Some(Color::DarkGray), bold: false, italic: true },
            }]
        }),
{
    reveal_strlit("    ");
    let ls = lines_of(result);
    let p = preview_spec(result, expanded);
    let shown = if !expanded && ls.len() > 12 { 12 } else { ls.len() as int };
    assert forall|i: int| 0 <= i < shown implies #[trigger] p[i] == seq![SpanView {
        content: seq![' ', ' ', ' ', ' '] + ls[i],
        style: SpanStyle { fg: Some(Color::DarkGray), bold: false, italic: false },
    }] by {
        assert("    "@ =~= seq![' ', ' ', ' ', ' ']);
    }
}

// ── Diff rendering ───────────────────────────────────────────────────────

/// The kind of a line in a diff.
#[derive(Debug, Clone, Copy, PartialEq, Eq)]
pub enum ChangeKind {
    Delete,
    Insert,
    Equal,
}

/// One line of a diff: its kind and text (line ending included).
pub struct LineChange {
    pub kind: ChangeKind,
    pub text: String,
}

/// The groups of changes, as kinds and texts.
pub open spec fn groups_view(g: Seq<Vec<LineChange>>) -> Seq<Seq<(ChangeKind, Seq<char>)>> {
    g.map_values(|v: Vec<LineChange>| v@.map_values(|c: LineChange| (c.kind, c.text@)))
}

/// What `similar` reports for a line diff of `old` and `new`: the changes
/// of `TextDiff::from_lines(old, new).grouped_ops(context)`, group by group
/// (each hunk with up to `context` unchanged lines around it).
pub uninterp spec fn similar_grouped_changes(old: Seq<char>, new: Seq<char>, context: nat) -> Seq<
    Seq<(ChangeKind, Seq<char>)>,
>;

/// `similar::TextDiff::from_lines` followed by `grouped_ops` and
/// `iter_changes`: the result is named.
#[verifier::external_body]
fn line_diff_groups(old: &str, new: &str, context: usize) -> (r: Vec<Vec<LineChange>>)
    ensures
        groups_view(r@) == similar_grouped_changes(old@, new@, context as nat),
{
    let diff = similar::TextDiff::from_lines(old, new);
    diff.grouped_ops(context).iter().map(|group| {
        group.iter().flat_map(|op| diff.iter_changes(op)).map(|c| LineChange {
            kind: match c.tag() {
                similar::ChangeTag::Delete => ChangeKind::Delete,
                similar::ChangeTag::Insert => ChangeKind::Insert,
                similar::ChangeTag::Equal => ChangeKind::Equal,
            },
            text: c.value().to_string(),
        }).collect()
    }).collect()
}

/// The line for one change: `-`, `+` or a blank by kind, then the text
/// without its line ending, coloured red, green or dim.
pub open spec fn change_line(c: (ChangeKind, Seq<char>)) -> Seq<SpanView> {
    let (prefix, color) = match c.0 {
        ChangeKind::Delete => ('-', Color::Red),
        ChangeKind::Insert => ('+', Color::Green),
        ChangeKind::Equal => (' ', Color::DarkGray),
    };
    line1("      "@ + seq![prefix, ' '] + trim_end_newlines(c.1), colored(color))
}

/// The separator drawn after a group.
pub open spec fn separator_line() -> Seq<SpanView> {
    line1("      ───"@, colored(Color::DarkGray))
}

/// The lines of the first `k` groups: each group's change lines, then a
/// separator while fewer than 200 lines have been drawn.
pub open spec fn diff_lines_upto(groups: Seq<Seq<(ChangeKind, Seq<char>)>>, k: nat) -> Seq<
    Seq<SpanView>,
>
    decreases k,
{
    if k == 0 {
        Seq::empty()
    } else {
        let with = diff_lines_upto(groups, (k - 1) as nat) + groups[k - 1].map_values(
            |c: (ChangeKind, Seq<char>)| change_line(c),
        );
        if with.len() < 200 {
            with.push(separator_line())
        } else {
            with
        }
    }
}

/// Whether a line's first span contains the separator rule.
pub open spec fn starts_with_rule(l: Seq<SpanView>) -> bool {
    l.len() > 0 && contains_run(l[0].content, "───"@)
}

/// Whether any group holds a change.
pub open spec fn has_changes(groups: Seq<Seq<(ChangeKind, Seq<char>)>>) -> bool {
    exists|i: int| 0 <= i < groups.len() && #[trigger] groups[i].len() > 0
}

/// The rendered diff of groups of changes: the group lines, without a
/// trailing separator, or a `(no changes)` note when there is no change.
pub open spec fn unified_diff_spec(groups: Seq<Seq<(ChangeKind, Seq<char>)>>) -> Seq<Seq<SpanView>> {
    let body = diff_lines_upto(groups, groups.len());
    let trimmed = if body.len() > 0 && starts_with_rule(body.last()) {
        body.drop_last()
    } else {
        body
    };
    if has_changes(groups) {
        trimmed
    } else {
        trimmed.push(line1("      (no changes)"@, colored(Color::DarkGray)))
    }
}

/// A change is drawn as six spaces, `-` (red) for a removed line, `+`
/// (green) for an added one or a space (dim) for an unchanged one, a
/// space, and the line's text without its line ending.
pub proof fn lemma_change_line_format(kind: ChangeKind, text: Seq<char>)
    ensures
        kind == ChangeKind::Delete ==> change_line((kind, text)) == seq![SpanView {
            content: "      - "@ + trim_end_newlines(text),
            style: SpanStyle { fg: Some(Color::Red), bold: false, italic: false },
        }],
        kind == ChangeKind::Insert ==> change_line((kind, text)) == seq![SpanView {
            content: "      + "@ + trim_end_newlines(text),
            style: SpanStyle { fg: Some(Color::Green), bold: false, italic: false },
        }],
        kind == ChangeKind::Equal ==> change_line((kind, text)) == seq![SpanView {
            content: "        "@ + trim_end_newlines(text),
            style: SpanStyle { fg: Some(Color::DarkGray), bold: false, italic: false },
        }],
{
    reveal_strlit("      ");
    reveal_strlit("      - ");
    reveal_strlit("      + ");
    reveal_strlit("        ");
    assert("      "@ + seq!['-', ' '] =~= "      - "@);
    assert("      "@ + seq!['+', ' '] =~= "      + "@);
    assert("      "@ + seq![' ', ' '] =~= "        "@);
    assert(("      "@ + seq!['-', ' ']) + trim_end_newlines(text) =~= "      "@ + seq!['-', ' '] + trim_end_newlines(text));
}

/// The line for one change.
fn render_change(c: &LineChange) -> (r: StyledLine)
    ensures
        r@ == change_line((c.kind, c.text@)),
{
    let (prefix, color) = match c.kind {
        ChangeKind::Delete => ('-', Color::Red),
        ChangeKind::Insert => ('+', Color::Green),
        ChangeKind::Equal => (' ', Color::DarkGray),
    };
    let mut text = chars_of("      ");
    text.push(prefix);
    text.push(' ');
    let body = trim_end_newline_chars(&chars_of(c.text.as_str()));
    push_all(&mut text, body.as_slice());
    proof {
        assert(text@ =~= "      "@ + seq![prefix, ' '] + trim_end_newlines(c.text@));
    }
    make_line1(text.as_slice(), style_fg(color))
}

/// The rendered diff of groups of changes.
pub fn render_change_groups(groups: &Vec<Vec<LineChange>>) -> (r: Vec<StyledLine>)
    ensures
        lines_view(r@) == unified_diff_spec(groups_view(groups@)),
{
    let ghost g = groups_view(groups@);
    let mut lines: Vec<StyledLine> = Vec::new();
    let mut any_change = false;
    let mut gi: usize = 0;
    while gi < groups.len()
        invariant
            g == groups_view(groups@),
            gi <= groups@.len(),
            lines_view(lines@) == diff_lines_upto(g, gi as nat),
            any_change == (exists|i: int| 0 <= i < gi && #[trigger] g[i].len() > 0),
        decreases groups@.len() - gi,
    {
        let group = &groups[gi];
        let ghost start = lines_view(lines@);
        let mut ci: usize = 0;
        while ci < group.len()
            invariant
                g == groups_view(groups@),
                gi < groups@.len(),
                *group == groups@[gi as int],
                ci <= group@.len(),
                lines_view(lines@) == start + g[gi as int].take(ci as int).map_values(
                    |c: (ChangeKind, Seq<char>)| change_line(c),
                ),
                any_change == ((exists|i: int| 0 <= i < gi && #[trigger] g[i].len() > 0) || ci > 0),
            decreases group@.len() - ci,
        {
            any_change = true;
            let l = render_change(&group[ci]);
            push_line(&mut lines, l);
            proof {
                assert(g[gi as int][ci as int] == (group@[ci as int].kind, group@[ci as int].text@));
                assert(g[gi as int].take(ci + 1).map_values(|c: (ChangeKind, Seq<char>)| change_line(c))
                    =~= g[gi as int].take(ci as int).map_values(
                    |c: (ChangeKind, Seq<char>)| change_line(c),
                ).push(change_line(g[gi as int][ci as int])));
            }
            ci = ci + 1;
        }
        proof {
            assert(g[gi as int].take(ci as int) =~= g[gi as int]);
            assert(g[gi as int].len() == group@.len());
        }
        if lines.len() < 200 {
            let rule = chars_of("      ───");
            let l = make_line1(rule.as_slice(), style_fg(Color::DarkGray));
            push_line(&mut lines, l);
        }
        proof {
            if group@.len() > 0 {
                assert(g[gi as int].len() > 0);
            }
            if g[gi as int].len() > 0 {
                assert(exists|i: int| 0 <= i < gi + 1 && #[trigger] g[i].len() > 0);
            }
            if exists|i: int| 0 <= i < gi + 1 && #[trigger] g[i].len() > 0 {
                let i = choose|i: int| 0 <= i < gi + 1 && #[trigger] g[i].len() > 0;
                if i < gi {
                    assert(exists|j: int| 0 <= j < gi && #[trigger] g[j].len() > 0);
                }
            }
            assert(any_change == (exists|i: int| 0 <= i < gi + 1 && #[trigger] g[i].len() > 0));
        }
        gi = gi + 1;
    }
    let ghost body = lines_view(lines@);
    let n = lines.len();
    if n > 0 && lines[n - 1].spans.len() > 0 {
        let first = chars_of(lines[n - 1].spans[0].content.as_str());
        assert(body.last() == lines@[n - 1]@);
        assert(body.last()[0].content == first@);
        if contains_chars(&first, &chars_of("───")) {
            lines.pop();
            assert(lines_view(lines@) =~= body.drop_last());
        }
    } else if n > 0 {
        assert(body.last() == lines@[n - 1]@);
    }
    if !any_change {
        let note = chars_of("      (no changes)");
        let l = make_line1(note.as_slice(), style_fg(Color::DarkGray));
        push_line(&mut lines, l);
    }
    lines
}


/// Render a unified diff of `old` against `new`.
pub fn render_unified_diff(old: &str, new: &str) -> (r: Vec<StyledLine>)
    ensures
        lines_view(r@) == unified_diff_spec(similar_grouped_changes(old@, new@, DIFF_CONTEXT as nat)),
{
    let groups = line_diff_groups(old, new, DIFF_CONTEXT);
    render_change_groups(&groups)
}

// ── Tool-specific renderers ──────────────────────────────────────────────

/// The first `n` characters of `s` (all of them when it is shorter).
pub open spec fn take_at_most(s: Seq<char>, n: nat) -> Seq<char> {
    if s.len() > n {
        s.take(n as int)
    } else {
        s
    }
}

fn take_chars(cs: &Vec<char>, n: usize) -> (r: Vec<char>)
    ensures
        r@ == take_at_most(cs@, n as nat),
{
    let mut r: Vec<char> = Vec::new();
    let mut i: usize = 0;
    while i < cs.len() && i < n
        invariant
            i <= cs@.len(),
            i <= n,
            r@ == cs@.take(i as int),
        decreases cs@.len() - i,
    {
        r.push(cs[i]);
        i = i + 1;
        assert(r@ =~= cs@.take(i as int));
    }
    assert(cs@.take(cs@.len() as int) =~= cs@);
    r
}

/// The text of string member `key`, or `default`.
fn member_or(input: &JsonValue, key: &str, default: &str) -> (r: Vec<char>)
    ensures
        r@ == or_text(member_str(*input, key@), default@),
{
    match get_str(input, key) {
        Some(s) => chars_of(s.as_str()),
        None => chars_of(default),
    }
}

/// The result preview, when the result is not empty.
pub open spec fn preview_if_any(result: Seq<char>, expanded: bool) -> Seq<Seq<SpanView>> {
    if result.len() > 0 {
        preview_spec(result, expanded)
    } else {
        Seq::empty()
    }
}

fn append_preview(lines: &mut Vec<StyledLine>, result: &str, expanded: bool)
    ensures
        lines_view(final(lines)@) == lines_view(old(lines)@) + preview_if_any(result@, expanded),
{
    if !result.is_empty() {
        extend_lines(lines, render_result_preview(result, expanded));
    } else {
        assert(lines_view(lines@) =~= lines_view(lines@) + Seq::<Seq<SpanView>>::empty());
    }
}

/// An Edit call: the file path, then the diff of `old_string` against
/// `new_string` unless both are empty.
pub open spec fn edit_spec(input: JsonValue) -> Seq<Seq<SpanView>> {
    let fp = or_text(member_str(input, "file_path"@), "<unknown>"@);
    let old = or_text(member_str(input, "old_string"@), Seq::empty());
    let new = or_text(member_str(input, "new_string"@), Seq::empty());
    let header = line2("    ~ "@, colored(Color::Yellow), fp, colored_bold(Color::Yellow));
    if old.len() == 0 && new.len() == 0 {
        seq![header]
    } else {
        seq![header] + unified_diff_spec(similar_grouped_changes(old, new, DIFF_CONTEXT as nat))
    }
}

/// A rendered diff is never empty: with a change it shows the change
/// lines, without one it says `(no changes)`.
pub proof fn lemma_unified_diff_nonempty(groups: Seq<Seq<(ChangeKind, Seq<char>)>>)
    ensures
        unified_diff_spec(groups).len() >= 1,
        !has_changes(groups) ==> unified_diff_spec(groups).last() == line1(
            "      (no changes)"@,
            colored(Color::DarkGray),
        ),
{
    if has_changes(groups) {
        let i = choose|i: int| 0 <= i < groups.len() && #[trigger] groups[i].len() > 0;
        lemma_diff_lines_len(groups, groups.len() as nat);
        assert(exists|j: int| 0 <= j < groups.len() && #[trigger] groups[j].len() > 0);
    }
}

/// Once a group with a change has been drawn, there are at least two
/// lines: a change line and then a separator or more lines.
proof fn lemma_diff_lines_len(groups: Seq<Seq<(ChangeKind, Seq<char>)>>, k: nat)
    requires
        k <= groups.len(),
    ensures
        (exists|i: int| 0 <= i < k && #[trigger] groups[i].len() > 0) ==> diff_lines_upto(groups, k).len() >= 2,
    decreases k,
{
    if k > 0 {
        lemma_diff_lines_len(groups, (k - 1) as nat);
        if exists|i: int| 0 <= i < k && #[trigger] groups[i].len() > 0 {
            let i = choose|i: int| 0 <= i < k && #[trigger] groups[i].len() > 0;
            if i < k - 1 {
                assert(exists|j: int| 0 <= j < k - 1 && #[trigger] groups[j].len() > 0);
            } else {
                assert(groups[k - 1].len() > 0);
            }
        }
    }
}

/// An Edit call always starts with its file path in yellow, the path
/// bold. Unless both strings are empty, the path is followed by the whole
/// unified diff of `old_string` against `new_string`, so there is more
/// than the path; only an edit with both strings empty shows the path
/// alone.
pub proof fn lemma_edit_shows_diff(input: JsonValue)
    ensures
        edit_spec(input).len() >= 1,
        edit_spec(input)[0] == line2(
            "    ~ "@,
            colored(Color::Yellow),
            or_text(member_str(input, "file_path"@), "<unknown>"@),
            colored_bold(Color::Yellow),
        ),
        (or_text(member_str(input, "old_string"@), Seq::empty()).len() > 0 || or_text(
            member_str(input, "new_string"@),
            Seq::empty(),
        ).len() > 0) ==> {
            &&& edit_spec(input).drop_first() == unified_diff_spec(
                similar_grouped_changes(
                    or_text(member_str(input, "old_string"@), Seq::empty()),
                    or_text(member_str(input, "new_string"@), Seq::empty()),
                    3,
                ),
            )
            &&& edit_spec(input).len() >= 2
        },
        (or_text(member_str(input, "old_string"@), Seq::empty()).len() == 0 && or_text(
            member_str(input, "new_string"@),
            Seq::empty(),
        ).len() == 0) ==> edit_spec(input).len() == 1,
{
    let old = or_text(member_str(input, "old_string"@), Seq::empty());
    let new = or_text(member_str(input, "new_string"@), Seq::empty());
    let g = similar_grouped_changes(old, new, DIFF_CONTEXT as nat);
    lemma_unified_diff_nonempty(g);
    if old.len() > 0 || new.len() > 0 {
        assert(edit_spec(input).drop_first() =~= unified_diff_spec(g));
    }
}

/// Render an Edit call.
pub fn render_edit(input: &JsonValue) -> (r: Vec<StyledLine>)
    ensures
        lines_view(r@) == edit_spec(*input),
{
    let file_path = member_or(input, "file_path", "<unknown>");
    let old_string = member_or(input, "old_string", "");
    let new_string = member_or(input, "new_string", "");
    proof {
        reveal_strlit("");
        assert(""@ =~= Seq::<char>::empty());
    }
    let header = make_line2(
        chars_of("    ~ ").as_slice(),
        style_fg(Color::Yellow),
        file_path.as_slice(),
        style_fg_bold(Color::Yellow),
    );
    let mut lines: Vec<StyledLine> = Vec::new();
    push_line(&mut lines, header);
    if old_string.len() == 0 && new_string.len() == 0 {
        assert(lines_view(lines@) =~= edit_spec(*input));
        return lines;
    }
    let old_s = string_from_chars(old_string.as_slice());
    let new_s = string_from_chars(new_string.as_slice());
    extend_lines(&mut lines, render_unified_diff(old_s.as_str(), new_s.as_str()));
    assert(lines_view(lines@) =~= edit_spec(*input));
    lines
}

/// A Read call: the file path, then the result preview.
pub open spec fn read_spec(input: JsonValue, result: Seq<char>, expanded: bool) -> Seq<Seq<SpanView>> {
    let fp = or_text(member_str(input, "file_path"@), "<unknown>"@);
    seq![line2("      "@, plain(), fp, colored(Color::White))] + preview_if_any(result, expanded)
}

/// Render a Read call.
pub fn render_read(input: &JsonValue, result: &str, expanded: bool) -> (r: Vec<StyledLine>)
    ensures
        lines_view(r@) == read_spec(*input, result@, expanded),
{
    let file_path = member_or(input, "file_path", "<unknown>");
    let header = make_line2(
        chars_of("      ").as_slice(),
        style_plain(),
        file_path.as_slice(),
        style_fg(Color::White),
    );
    let mut lines: Vec<StyledLine> = Vec::new();
    push_line(&mut lines, header);
    append_preview(&mut lines, result, expanded);
    assert(lines_view(lines@) =~= read_spec(*input, result@, expanded));
    lines
}

/// A Write call: the file path.
pub open spec fn write_spec(input: JsonValue) -> Seq<Seq<SpanView>> {
    let fp = or_text(member_str(input, "file_path"@), "<unknown>"@);
    seq![line2("    + "@, colored(Color::Green), fp, colored_bold(Color::Green))]
}

/// Render a Write call.
pub fn render_write(input: &JsonValue) -> (r: Vec<StyledLine>)
    ensures
        lines_view(r@) == write_spec(*input),
{
    let file_path = member_or(input, "file_path", "<unknown>");
    let header = make_line2(
        chars_of("    + ").as_slice(),
        style_fg(Color::Green),
        file_path.as_slice(),
        style_fg_bold(Color::Green),
    );
    let mut lines: Vec<StyledLine> = Vec::new();
    push_line(&mut lines, header);
    assert(lines_view(lines@) =~= write_spec(*input));
    lines
}

/// The command as a Bash call shows it: its first line, at most 80
/// characters, with `...` when the command has more lines or is longer
/// than 80 bytes.
pub open spec fn bash_command_display(command: Seq<char>) -> Seq<char> {
    let ls = lines_of(command);
    let first = if ls.len() > 0 { ls[0] } else { command };
    let shown = take_at_most(first, 80);
    if ls.len() > 1 || utf8_len(command) > 80 {
        shown + "..."@
    } else {
        shown
    }
}

/// A command is shown in full when it is one line of at most 80 bytes.
/// When it has more lines or is longer, what is shown ends in `...`
/// after at most 80 characters; otherwise at most 80 characters are shown.
pub proof fn lemma_bash_command_shown(command: Seq<char>)
    ensures
        (forall|i: int| 0 <= i < command.len() ==> #[trigger] command[i] != '\n') && utf8_len(command)
            <= 80 ==> bash_command_display(command) == command,
        (lines_of(command).len() > 1 || utf8_len(command) > 80) ==> {
            let d = bash_command_display(command);
            &&& 3 <= d.len() <= 83
            &&& d.subrange(d.len() - 3, d.len() as int) == "..."@
        },
        !(lines_of(command).len() > 1 || utf8_len(command) > 80) ==> bash_command_display(command).len()
            <= 80,
{
    reveal_strlit("...");
    let d = bash_command_display(command);
    let ls = lines_of(command);
    let first = if ls.len() > 0 { ls[0] } else { command };
    let shown = take_at_most(first, 80);
    if lines_of(command).len() > 1 || utf8_len(command) > 80 {
        assert(d == shown + "..."@);
        assert(d.subrange(d.len() - 3, d.len() as int) =~= "..."@);
    }
    if (forall|i: int| 0 <= i < command.len() ==> #[trigger] command[i] != '\n') && utf8_len(command)
        <= 80 {
        lemma_split_without_newline(command);
        lemma_utf8_len_at_least_chars(command);
        if command.len() > 0 {
            assert(ls.len() == 1);
            assert(ls[0] == command);
        } else {
            assert(ls.len() == 0);
        }
    }
}

/// Text without a line feed is one piece when split at line feeds.
proof fn lemma_split_without_newline(s: Seq<char>)
    requires
        forall|i: int| 0 <= i < s.len() ==> #[trigger] s[i] != '\n',
    ensures
        crate::text::split_on(s, '\n') == seq![s],
    decreases s.len(),
{
    if s.len() > 0 {
        assert forall|i: int| 0 <= i < s.drop_last().len() implies #[trigger] s.drop_last()[i] != '\n' by {
            assert(s.drop_last()[i] == s[i]);
        }
        lemma_split_without_newline(s.drop_last());
        assert(s[s.len() - 1] != '\n');
        assert(s.drop_last().push(s.last()) =~= s);
    } else {
        assert(s =~= Seq::<char>::empty());
    }
}

/// Every character takes at least one byte.
proof fn lemma_utf8_len_at_least_chars(s: Seq<char>)
    ensures
        utf8_len(s) >= s.len(),
    decreases s.len(),
{
    if s.len() > 0 {
        lemma_utf8_len_at_least_chars(s.drop_last());
    }
}

/// A Bash call: the command, then the result preview.
pub open spec fn bash_spec(input: JsonValue, result: Seq<char>, expanded: bool) -> Seq<Seq<SpanView>> {
    let command = or_text(member_str(input, "command"@), "<unknown>"@);
    seq![
        line2(
            "    $ "@,
            colored(Color::Magenta),
            bash_command_display(command),
            colored(Color::Magenta),
        ),
    ] + preview_if_any(result, expanded)
}

/// Render a Bash call.
pub fn render_bash(input: &JsonValue, result: &str, expanded: bool) -> (r: Vec<StyledLine>)
    ensures
        lines_view(r@) == bash_spec(*input, result@, expanded),
{
    let command = member_or(input, "command", "<unknown>");
    let ls = split_lines(&command);
    let first = if ls.len() > 0 { ls[0].clone() } else { command.clone() };
    let mut shown = take_chars(&first, 80);
    let byte_len = utf8_length(&command);
    let truncated = ls.len() > 1 || byte_len > 80;
    proof {
        if ls@.len() > 0 {
            assert(first@ == views(ls@)[0]);
        }
        assert(views(ls@).len() == ls@.len());
    }
    if truncated {
        let dots = chars_of("...");
        push_all(&mut shown, dots.as_slice());
    }
    assert(shown@ == bash_command_display(command@));
    let header = make_line2(
        chars_of("    $ ").as_slice(),
        style_fg(Color::Magenta),
        shown.as_slice(),
        style_fg(Color::Magenta),
    );
    let mut lines: Vec<StyledLine> = Vec::new();
    push_line(&mut lines, header);
    append_preview(&mut lines, result, expanded);
    assert(lines_view(lines@) =~= bash_spec(*input, result@, expanded));
    lines
}

/// A Grep call: the pattern and path, then the result preview.
pub open spec fn grep_spec(input: JsonValue, result: Seq<char>, expanded: bool) -> Seq<Seq<SpanView>> {
    let pattern = or_text(member_str(input, "pattern"@), Seq::empty());
    let path = or_text(member_str(input, "path"@), "."@);
    seq![
        line2(
            "    🔍 "@,
            plain(),
            "/"@ + pattern + "/ in "@ + path,
            colored(Color::Cyan),
        ),
    ] + preview_if_any(result, expanded)
}

/// Render a Grep call.
pub fn render_grep(input: &JsonValue, result: &str, expanded: bool) -> (r: Vec<StyledLine>)
    ensures
        lines_view(r@) == grep_spec(*input, result@, expanded),
{
    let pattern = member_or(input, "pattern", "");
    let path = member_or(input, "path", ".");
    proof {
        reveal_strlit("");
        assert(""@ =~= Seq::<char>::empty());
    }
    let mut text = chars_of("/");
    push_all(&mut text, pattern.as_slice());
    push_all(&mut text, chars_of("/ in ").as_slice());
    push_all(&mut text, path.as_slice());
    let header = make_line2(
        chars_of("    🔍 ").as_slice(),
        style_plain(),
        text.as_slice(),
        style_fg(Color::Cyan),
    );
    let mut lines: Vec<StyledLine> = Vec::new();
    push_line(&mut lines, header);
    append_preview(&mut lines, result, expanded);
    assert(lines_view(lines@) =~= grep_spec(*input, result@, expanded));
    lines
}

/// A Glob call: the pattern, then the result preview.
pub open spec fn glob_spec(input: JsonValue, result: Seq<char>, expanded: bool) -> Seq<Seq<SpanView>> {
    let pattern = or_text(member_str(input, "pattern"@), Seq::empty());
    seq![line2("    📁 "@, plain(), pattern, colored(Color::Cyan))] + preview_if_any(result, expanded)
}

/// Render a Glob call.
pub fn render_glob(input: &JsonValue, result: &str, expanded: bool) -> (r: Vec<StyledLine>)
    ensures
        lines_view(r@) == glob_spec(*input, result@, expanded),
{
    let pattern = member_or(input, "pattern", "");
    proof {
        reveal_strlit("");
        assert(""@ =~= Seq::<char>::empty());
    }
    let header = make_line2(
        chars_of("    📁 ").as_slice(),
        style_plain(),
        pattern.as_slice(),
        style_fg(Color::Cyan),
    );
    let mut lines: Vec<StyledLine> = Vec::new();
    push_line(&mut lines, header);
    append_preview(&mut lines, result, expanded);
    assert(lines_view(lines@) =~= glob_spec(*input, result@, expanded));
    lines
}

/// Any other tool: its name and the first 120 characters of its input
/// as compact JSON.
pub open spec fn generic_spec(name: Seq<char>, input_json_text: Seq<char>) -> Seq<Seq<SpanView>> {
    seq![
        line2(
            "    "@ + name + ": "@,
            colored(Color::DarkGray),
            take_at_most(input_json_text, 120),
            colored(Color::DarkGray),
        ),
    ]
}

/// Render a call of any other tool from its name and its input as compact
/// JSON text.
pub fn render_generic(name: &str, input_json_text: &str) -> (r: Vec<StyledLine>)
    ensures
        lines_view(r@) == generic_spec(name@, input_json_text@),
{
    let mut label = chars_of("    ");
    push_all(&mut label, chars_of(name).as_slice());
    push_all(&mut label, chars_of(": ").as_slice());
    let preview = take_chars(&chars_of(input_json_text), 120);
    let l = make_line2(
        label.as_slice(),
        style_fg(Color::DarkGray),
        preview.as_slice(),
        style_fg(Color::DarkGray),
    );
    let mut lines: Vec<StyledLine> = Vec::new();
    push_line(&mut lines, l);
    assert(lines_view(lines@) =~= generic_spec(name@, input_json_text@));
    lines
}

/// The input of a tool call: its JSON, or `null` when it is not JSON.
pub open spec fn call_input(input_json: Seq<char>) -> JsonValue {
    match json_parse(input_json) {
        Some(v) => v,
        None => JsonValue::Null,
    }
}

/// A completed tool call, rendered by tool name.
pub open spec fn tool_call_spec(item: ToolCallItem) -> Seq<Seq<SpanView>> {
    let input = call_input(item.input_json@);
    let name = item.name@;
    let result = item.result_preview@;
    let expanded = item.is_expanded;
    if name == "Edit"@ {
        edit_spec(input)
    } else if name == "Read"@ {
        read_spec(input, result, expanded)
    } else if name == "Write"@ {
        write_spec(input)
    } else if name == "Bash"@ {
        bash_spec(input, result, expanded)
    } else if name == "Grep"@ {
        grep_spec(input, result, expanded)
    } else if name == "Glob"@ {
        glob_spec(input, result, expanded)
    } else {
        generic_spec(name, json_compact_text(item.input_json@))
    }
}

/// Render a completed tool call into displayable lines.
pub fn render_tool_call(item: &ToolCallItem) -> (r: Vec<StyledLine>)
    ensures
        lines_view(r@) == tool_call_spec(*item),
{
    let input = match parse_json(item.input_json.as_str()) {
        Some(v) => v,
        None => JsonValue::Null,
    };
    let name = item.name.as_str();
    let result = item.result_preview.as_str();
    let expanded = item.is_expanded;
    if crate::text::str_eq(name, "Edit") {
        render_edit(&input)
    } else if crate::text::str_eq(name, "Read") {
        render_read(&input, result, expanded)
    } else if crate::text::str_eq(name, "Write") {
        render_write(&input)
    } else if crate::text::str_eq(name, "Bash") {
        render_bash(&input, result, expanded)
    } else if crate::text::str_eq(name, "Grep") {
        render_grep(&input, result, expanded)
    } else if crate::text::str_eq(name, "Glob") {
        render_glob(&input, result, expanded)
    } else {
        let compact = compact_json(item.input_json.as_str());
        render_generic(name, compact.as_str())
    }
}

/// How each tool call is drawn, by its name (the input is the call's
/// JSON, `null` when it is not JSON):
/// - Edit: the Edit rendering (path, then the diff);
/// - Read: six spaces and the file path in white, then the result
///   preview when there is a result;
/// - Write: `    + ` and the path, green, the path bold;
/// - Bash: `    $ ` and the command as shown, magenta, then the preview;
/// - Grep: a search glyph and `/pattern/ in path` (path `.` when absent)
///   in cyan, then the preview;
/// - Glob: a folder glyph and the pattern in cyan, then the preview;
/// - any other tool: its name and the first 120 characters of its input as
///   compact JSON, dimmed.
pub proof fn lemma_tool_call_rendering(item: ToolCallItem)
    ensures
        ({
            let input = call_input(item.input_json@);
            let name = item.name@;
            let result = item.result_preview@;
            let expanded = item.is_expanded;
            let r = tool_call_spec(item);
            &&& name == "Edit"@ ==> r == edit_spec(input)
            &&& name == "Read"@ ==> r == seq![seq![SpanView { content: "      "@, style: SpanStyle { fg: None, bold: false, italic: false } }, SpanView { content: or_text(member_str(input, "file_path"@), "<unknown>"@), style: SpanStyle { fg: Some(Color::White), bold: false, italic: false } }]] + (if result.len() > 0 { preview_spec(result, expanded) } else { Seq::<Seq<SpanView>>::empty() })
            &&& name == "Write"@ ==> r == seq![seq![SpanView { content: "    + "@, style: SpanStyle { fg: Some(Color::Green), bold: false, italic: false } }, SpanView { content: or_text(member_str(input, "file_path"@), "<unknown>"@), style: SpanStyle { fg: Some(Color::Green), bold: true, italic: false } }]]
            &&& name == "Bash"@ ==> r == seq![seq![SpanView { content: "    $ "@, style: SpanStyle { fg: Some(Color::Magenta), bold: false, italic: false } }, SpanView { content: bash_command_display(or_text(member_str(input, "command"@), "<unknown>"@)), style: SpanStyle { fg: Some(Color::Magenta), bold: false, italic: false } }]] + (if result.len() > 0 { preview_spec(result, expanded) } else { Seq::<Seq<SpanView>>::empty() })
            &&& name == "Grep"@ ==> r == seq![seq![SpanView { content: "    🔍 "@, style: SpanStyle { fg: None, bold: false, italic: false } }, SpanView { content: "/"@ + or_text(member_str(input, "pattern"@), Seq::empty()) + "/ in "@ + or_text(member_str(input, "path"@), "."@), style: SpanStyle { fg: Some(Color::Cyan), bold: false, italic: false } }]] + (if result.len() > 0 { preview_spec(result, expanded) } else { Seq::<Seq<SpanView>>::empty() })
            &&& name == "Glob"@ ==> r == seq![seq![SpanView { content: "    📁 "@, style: SpanStyle { fg: None, bold: false, italic: false } }, SpanView { content: or_text(member_str(input, "pattern"@), Seq::empty()), style: SpanStyle { fg: Some(Color::Cyan), bold: false, italic: false } }]] + (if result.len() > 0 { preview_spec(result, expanded) } else { Seq::<Seq<SpanView>>::empty() })
            &&& !(name == "Edit"@ || name == "Read"@ || name == "Write"@ || name == "Bash"@ || name == "Grep"@ || name == "Glob"@) ==> r == seq![seq![SpanView { content: "    "@ + name + ": "@, style: SpanStyle { fg: Some(Color::DarkGray), bold: false, italic: false } }, SpanView { content: take_at_most(json_compact_text(item.input_json@), 120), style: SpanStyle { fg: Some(Color::DarkGray), bold: false, italic: false } }]]
        }),
{
    reveal_strlit("Edit");
    reveal_strlit("Read");
    reveal_strlit("Write");
    reveal_strlit("Bash");
    reveal_strlit("Grep");
    reveal_strlit("Glob");
    assert("Edit"@[0] != "Read"@[0] && "Edit"@[0] != "Bash"@[0] && "Edit"@[0] != "Grep"@[0]);
    assert("Edit"@[0] != "Glob"@[0] && "Read"@[0] != "Bash"@[0] && "Read"@[0] != "Grep"@[0]);
    assert("Read"@[0] != "Glob"@[0] && "Bash"@[0] != "Grep"@[0] && "Bash"@[0] != "Glob"@[0]);
    assert("Grep"@[1] != "Glob"@[1]);
    assert("Write"@.len() != "Edit"@.len());
}

} // verus!
