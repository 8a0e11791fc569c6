//! NDJSON events of a headless agent CLI session, and the session
//! metrics that the bridge keeps from them.
//!
//! `parse_bridge_event` reads one line of the `stream-json` output:
//! streaming text deltas, rate-limit notices and tool results are
//! recognised here; `system`, `assistant` and `result` lines become core
//! events. Every other line yields no event.

use vstd::prelude::*;

use crate::json::{
    array_value, get, get_array, get_number_text, get_str, get_u64, json_parse, member, member_str,
    member_str_is, number_text, or_text, parse_json, u64_value, JsonValue,
};
use crate::text::{chars_of, join, join_chars, str_eq, string_from_chars, views};

verus! {

// ── Events ───────────────────────────────────────────────────────────────

/// One content block of an assistant message.
#[derive(Debug)]
pub struct ContentBlock {
    /// The block's `type` (`"text"`, `"tool_use"`, ...), empty when absent.
    pub block_type: String,
    /// The tool's name, for `tool_use` blocks.
    pub name: Option<String>,
}

/// Token usage reported with an assistant message (absent counts are 0).
#[derive(Debug, Clone, Copy)]
pub struct Usage {
    pub input_tokens: u64,
    pub output_tokens: u64,
    pub cache_read_input_tokens: u64,
    pub cache_creation_input_tokens: u64,
}

/// An assistant message: its content blocks and optional usage.
#[derive(Debug)]
pub struct AssistantMessage {
    pub content: Vec<ContentBlock>,
    pub usage: Option<Usage>,
}

/// The final `result` line of a turn.
#[derive(Debug)]
pub struct ResultPayload {
    /// Decimal text of `total_cost_usd`, when reported.
    pub cost_usd: Option<String>,
    /// `num_turns`, 0 when absent.
    pub num_turns: u64,
}

/// Core protocol events.
#[derive(Debug)]
pub enum ClaudeEvent {
    System { session_id: String },
    Assistant { message: AssistantMessage },
    Result { payload: ResultPayload },
}

/// Extended event type for the session bridge.
#[derive(Debug)]
#[non_exhaustive]
pub enum BridgeEvent {
    /// Core event (`system`, `assistant`, `result`).
    Core(ClaudeEvent),
    /// Streaming text chunk from `content_block_delta`.
    TextDelta { text: String },
    /// Tool result from a `user` event holding a `tool_result` block.
    ToolResult { tool_use_id: String, content: String },
    /// Rate limit status change.
    RateLimit { status: String, resets_at: Option<String> },
    /// Permission request (tool approval prompt).
    PermissionRequest { tool: String, description: String },
}

// ── Views of events ──────────────────────────────────────────────────────

pub struct ContentBlockView {
    pub block_type: Seq<char>,
    pub name: Option<Seq<char>>,
}

pub struct AssistantMessageView {
    pub content: Seq<ContentBlockView>,
    pub usage: Option<Usage>,
}

pub struct ResultPayloadView {
    pub cost_usd: Option<Seq<char>>,
    pub num_turns: u64,
}

pub enum ClaudeEventView {
    System { session_id: Seq<char> },
    Assistant { message: AssistantMessageView },
    Result { payload: ResultPayloadView },
}

pub enum BridgeEventView {
    Core(ClaudeEventView),
    TextDelta { text: Seq<char> },
    ToolResult { tool_use_id: Seq<char>, content: Seq<char> },
    RateLimit { status: Seq<char>, resets_at: Option<Seq<char>> },
    PermissionRequest { tool: Seq<char>, description: Seq<char> },
}

/// The characters of an optional string.
pub open spec fn opt_text(o: Option<String>) -> Option<Seq<char>> {
    match o {
        Some(s) => Some(s@),
        None => None,
    }
}

impl View for ContentBlock {
    type V = ContentBlockView;

    open spec fn view(&self) -> ContentBlockView {
        ContentBlockView { block_type: self.block_type@, name: opt_text(self.name) }
    }
}

impl View for AssistantMessage {
    type V = AssistantMessageView;

    open spec fn view(&self) -> AssistantMessageView {
        AssistantMessageView {
            content: self.content@.map_values(|b: ContentBlock| b@),
            usage: self.usage,
        }
    }
}

impl View for ResultPayload {
    type V = ResultPayloadView;

    open spec fn view(&self) -> ResultPayloadView {
        ResultPayloadView { cost_usd: opt_text(self.cost_usd), num_turns: self.num_turns }
    }
}

impl View for ClaudeEvent {
    type V = ClaudeEventView;

    open spec fn view(&self) -> ClaudeEventView {
        match self {
            ClaudeEvent::System { session_id } => ClaudeEventView::System { session_id: session_id@ },
            ClaudeEvent::Assistant { message } => ClaudeEventView::Assistant { message: message@ },
            ClaudeEvent::Result { payload } => ClaudeEventView::Result { payload: payload@ },
        }
    }
}

impl View for BridgeEvent {
    type V = BridgeEventView;

    open spec fn view(&self) -> BridgeEventView {
        match self {
            BridgeEvent::Core(e) => BridgeEventView::Core(e@),
            BridgeEvent::TextDelta { text } => BridgeEventView::TextDelta { text: text@ },
            BridgeEvent::ToolResult { tool_use_id, content } => BridgeEventView::ToolResult {
                tool_use_id: tool_use_id@,
                content: content@,
            },
            BridgeEvent::RateLimit { status, resets_at } => BridgeEventView::RateLimit {
                status: status@,
                resets_at: opt_text(*resets_at),
            },
            BridgeEvent::PermissionRequest { tool, description } => BridgeEventView::PermissionRequest {
                tool: tool@,
                description: description@,
            },
        }
    }
}

/// The view of an optional event.
pub open spec fn event_view(o: Option<BridgeEvent>) -> Option<BridgeEventView> {
    match o {
        Some(e) => Some(e@),
        None => None,
    }
}

// ── What a line means ────────────────────────────────────────────────────

/// A `content_block_delta` line: a text chunk when its delta is a
/// `text_delta` carrying a string `text`, else nothing.
pub open spec fn text_delta_spec(v: JsonValue) -> Option<BridgeEventView> {
    match member(v, "delta"@) {
        Some(d) => if member_str(d, "type"@) == Some("text_delta"@) {
            match member_str(d, "text"@) {
                Some(t) => Some(BridgeEventView::TextDelta { text: t }),
                None => None,
            }
        } else {
            None
        },
        None => None,
    }
}

/// A `rate_limit_event` line: its `status` (`"unknown"` when absent) and
/// its `resets_at`.
pub open spec fn rate_limit_spec(v: JsonValue) -> BridgeEventView {
    BridgeEventView::RateLimit {
        status: or_text(member_str(v, "status"@), "unknown"@),
        resets_at: member_str(v, "resets_at"@),
    }
}

/// The first block whose `type` is `tool_result`.
pub open spec fn first_tool_result(blocks: Seq<JsonValue>) -> Option<JsonValue>
    decreases blocks.len(),
{
    if blocks.len() == 0 {
        None
    } else if member_str(blocks[0], "type"@) == Some("tool_result"@) {
        Some(blocks[0])
    } else {
        first_tool_result(blocks.drop_first())
    }
}

/// The `text` of each `text` block among `items` that has a string `text`.
pub open spec fn text_parts(items: Seq<JsonValue>) -> Seq<Seq<char>>
    decreases items.len(),
{
    if items.len() == 0 {
        Seq::empty()
    } else {
        let rest = text_parts(items.drop_last());
        let b = items.last();
        if member_str(b, "type"@) == Some("text"@) && member_str(b, "text"@) is Some {
            rest.push(member_str(b, "text"@).unwrap())
        } else {
            rest
        }
    }
}

/// The text of a tool result block: its `content` when that is a string,
/// the `text` blocks of `content` joined by newlines when it is an array,
/// else empty.
pub open spec fn tool_result_text(b: JsonValue) -> Seq<char> {
    match member(b, "content"@) {
        Some(JsonValue::Str(s)) => s@,
        Some(JsonValue::Array(items)) => join(text_parts(items@), "\n"@),
        _ => Seq::empty(),
    }
}

/// A `user` line whose `message.content` array holds a `tool_result`
/// block: the first such block's id (empty when absent) and text.
pub open spec fn tool_result_spec(v: JsonValue) -> Option<BridgeEventView> {
    match member(v, "message"@) {
        Some(m) => match array_value(member(m, "content"@)) {
            Some(blocks) => match first_tool_result(blocks) {
                Some(b) => Some(
                    BridgeEventView::ToolResult {
                        tool_use_id: or_text(member_str(b, "tool_use_id"@), Seq::empty()),
                        content: tool_result_text(b),
                    },
                ),
                None => None,
            },
            None => None,
        },
        None => None,
    }
}

/// One content block: its `type` (empty when absent) and `name`.
pub open spec fn block_spec(b: JsonValue) -> ContentBlockView {
    ContentBlockView {
        block_type: or_text(member_str(b, "type"@), Seq::empty()),
        name: member_str(b, "name"@),
    }
}

/// A count member, 0 when absent or not a `u64`.
pub open spec fn count_of(v: JsonValue, key: Seq<char>) -> u64 {
    match u64_value(member(v, key)) {
        Some(n) => n,
        None => 0,
    }
}

/// The `usage` object of a message.
pub open spec fn usage_spec(u: JsonValue) -> Usage {
    Usage {
        input_tokens: count_of(u, "input_tokens"@),
        output_tokens: count_of(u, "output_tokens"@),
        cache_read_input_tokens: count_of(u, "cache_read_input_tokens"@),
        cache_creation_input_tokens: count_of(u, "cache_creation_input_tokens"@),
    }
}

/// An assistant `message`: its content blocks (none when `content` is not
/// an array) and its usage (when `usage` is an object).
pub open spec fn message_spec(m: JsonValue) -> AssistantMessageView {
    let blocks = match array_value(member(m, "content"@)) {
        Some(a) => a,
        None => Seq::empty(),
    };
    AssistantMessageView {
        content: blocks.map_values(|b: JsonValue| block_spec(b)),
        usage: match member(m, "usage"@) {
            Some(JsonValue::Object(f)) => Some(usage_spec(JsonValue::Object(f))),
            _ => None,
        },
    }
}

/// Core events: `system` with a string `session_id`, `assistant` with a
/// `message`, and `result`; other types are not core events.
pub open spec fn core_event_spec(v: JsonValue, t: Seq<char>) -> Option<ClaudeEventView> {
    if t == "system"@ {
        match member_str(v, "session_id"@) {
            Some(id) => Some(ClaudeEventView::System { session_id: id }),
            None => None,
        }
    } else if t == "assistant"@ {
        match member(v, "message"@) {
            Some(m) => Some(ClaudeEventView::Assistant { message: message_spec(m) }),
            None => None,
        }
    } else if t == "result"@ {
        Some(
            ClaudeEventView::Result {
                payload: ResultPayloadView {
                    cost_usd: number_text(member(v, "total_cost_usd"@)),
                    num_turns: count_of(v, "num_turns"@),
                },
            },
        )
    } else {
        None
    }
}

/// The event a JSON document stands for, by its string `type`.
pub open spec fn bridge_event_spec(v: JsonValue) -> Option<BridgeEventView> {
    match member_str(v, "type"@) {
        None => None,
        Some(t) => if t == "content_block_delta"@ {
            text_delta_spec(v)
        } else if t == "rate_limit_event"@ {
            Some(rate_limit_spec(v))
        } else if t == "user"@ && tool_result_spec(v) is Some {
            tool_result_spec(v)
        } else {
            match core_event_spec(v, t) {
                Some(e) => Some(BridgeEventView::Core(e)),
                None => None,
            }
        },
    }
}

/// The event one NDJSON line stands for: none for an empty line or one
/// that is not JSON.
pub open spec fn parse_bridge_event_spec(line: Seq<char>) -> Option<BridgeEventView> {
    if line.len() == 0 {
        None
    } else {
        match json_parse(line) {
            Some(v) => bridge_event_spec(v),
            None => None,
        }
    }
}

/// What a line yields, by its `type`:
/// - an empty line, a line that is not JSON, or one without a string
///   `type` yields no event;
/// - `content_block_delta` yields the text of a `text_delta` and
///   nothing otherwise;
/// - `rate_limit_event` always yields a rate-limit event, with status
///   `unknown` when none is given;
/// - `system` with a string `session_id` yields that session;
/// - `result` always yields a result, 0 turns when none are given;
/// - a `type` none of these nor `user` or `assistant` yields no event.
pub proof fn lemma_event_by_type(line: Seq<char>, v: JsonValue, t: Seq<char>)
    requires
        line.len() > 0,
        json_parse(line) == Some(v),
        member_str(v, "type"@) == Some(t),
    ensures
        parse_bridge_event_spec(Seq::empty()) is None,
        parse_bridge_event_spec(line) == bridge_event_spec(v),
        t == "content_block_delta"@ ==> match member(v, "delta"@) {
            Some(d) => (member_str(d, "type"@) == Some("text_delta"@) && member_str(d, "text"@) is Some)
                ==> bridge_event_spec(v) == Some(
                BridgeEventView::TextDelta { text: member_str(d, "text"@).unwrap() },
            ),
            None => bridge_event_spec(v) is None,
        },
        t == "content_block_delta"@ && !(member(v, "delta"@) matches Some(d) && member_str(d, "type"@)
            == Some("text_delta"@)) ==> bridge_event_spec(v) is None,
        t == "rate_limit_event"@ ==> bridge_event_spec(v) == Some(
            BridgeEventView::RateLimit {
                status: match member_str(v, "status"@) {
                    Some(st) => st,
                    None => "unknown"@,
                },
                resets_at: member_str(v, "resets_at"@),
            },
        ),
        t == "system"@ && member_str(v, "session_id"@) is Some ==> bridge_event_spec(v) == Some(
            BridgeEventView::Core(
                ClaudeEventView::System { session_id: member_str(v, "session_id"@).unwrap() },
            ),
        ),
        t == "result"@ ==> (bridge_event_spec(v) matches Some(
            BridgeEventView::Core(ClaudeEventView::Result { payload }),
        ) && payload.num_turns == (match u64_value(member(v, "num_turns"@)) {
            Some(n) => n,
            None => 0u64,
        })),
        !(t == "content_block_delta"@ || t == "rate_limit_event"@ || t == "user"@ || t == "system"@ || t
            == "assistant"@ || t == "result"@) ==> bridge_event_spec(v) is None,
{
    reveal_strlit("content_block_delta");
    reveal_strlit("rate_limit_event");
    reveal_strlit("user");
    reveal_strlit("system");
    reveal_strlit("assistant");
    reveal_strlit("result");
    assert("system"@[0] != "result"@[0]);
    assert("content_block_delta"@.len() != "rate_limit_event"@.len());
}

// ── Parsing ──────────────────────────────────────────────────────────────

fn text_delta_from_json(v: &JsonValue) -> (r: Option<BridgeEvent>)
    ensures
        event_view(r) == text_delta_spec(*v),
{
    match get(v, "delta") {
        Some(d) => {
            if member_str_is(d, "type", "text_delta") {
                match get_str(d, "text") {
                    Some(t) => Some(BridgeEvent::TextDelta { text: t }),
                    None => None,
                }
            } else {
                None
            }
        },
        None => None,
    }
}

fn rate_limit_from_json(v: &JsonValue) -> (r: BridgeEvent)
    ensures
        r@ == rate_limit_spec(*v),
{
    let status = match get_str(v, "status") {
        Some(s) => s,
        None => "unknown".to_owned(),
    };
    BridgeEvent::RateLimit { status, resets_at: get_str(v, "resets_at") }
}

fn tool_result_text_of(b: &JsonValue) -> (r: String)
    ensures
        r@ == tool_result_text(*b),
{
    match get(b, "content") {
        Some(JsonValue::Str(s)) => s.clone(),
        Some(JsonValue::Array(items)) => {
            let mut parts: Vec<Vec<char>> = Vec::new();
            let mut i: usize = 0;
            while i < items.len()
                invariant
                    i <= items@.len(),
                    views(parts@) == text_parts(items@.take(i as int)),
                decreases items@.len() - i,
            {
                let item = &items[i];
                assert(items@.take(i + 1).drop_last() =~= items@.take(i as int));
                assert(items@.take(i + 1).last() == items@[i as int]);
                if member_str_is(item, "type", "text") {
                    match get_str(item, "text") {
                        Some(t) => {
                            let ghost before = views(parts@);
                            parts.push(chars_of(t.as_str()));
                            assert(views(parts@) =~= before.push(t@));
                        },
                        None => {},
                    }
                }
                i = i + 1;
            }
            assert(items@.take(items@.len() as int) =~= items@);
            let joined = join_chars(&parts, &chars_of("\n"));
            string_from_chars(joined.as_slice())
        },
        _ => String::new(),
    }
}

fn tool_result_from_json(v: &JsonValue) -> (r: Option<BridgeEvent>)
    ensures
        event_view(r) == tool_result_spec(*v),
{
    let m = match get(v, "message") {
        Some(m) => m,
        None => return None,
    };
    let blocks = match get_array(m, "content") {
        Some(a) => a,
        None => return None,
    };
    let mut i: usize = 0;
    assert(blocks@.skip(0) =~= blocks@);
    while i < blocks.len()
        invariant
            member(*v, "message"@) == Some(*m),
            array_value(member(*m, "content"@)) == Some(blocks@),
            i <= blocks@.len(),
            first_tool_result(blocks@) == first_tool_result(blocks@.skip(i as int)),
        decreases blocks@.len() - i,
    {
        let b = &blocks[i];
        assert(blocks@.skip(i as int).drop_first() =~= blocks@.skip(i + 1));
        assert(blocks@.skip(i as int)[0] == blocks@[i as int]);
        if member_str_is(b, "type", "tool_result") {
            let tool_use_id = match get_str(b, "tool_use_id") {
                Some(s) => s,
                None => String::new(),
            };
            let content = tool_result_text_of(b);
            assert(first_tool_result(blocks@.skip(i as int)) == Some(blocks@[i as int]));
            return Some(BridgeEvent::ToolResult { tool_use_id, content });
        }
        i = i + 1;
    }
    None
}

fn usage_from_json(u: &JsonValue) -> (r: Usage)
    ensures
        r == usage_spec(*u),
{
    let input_tokens = match get_u64(u, "input_tokens") { Some(n) => n, None => 0 };
    let output_tokens = match get_u64(u, "output_tokens") { Some(n) => n, None => 0 };
    let cache_read_input_tokens = match get_u64(u, "cache_read_input_tokens") { Some(n) => n, None => 0 };
    let cache_creation_input_tokens = match get_u64(u, "cache_creation_input_tokens") {
        Some(n) => n,
        None => 0,
    };
    Usage { input_tokens, output_tokens, cache_read_input_tokens, cache_creation_input_tokens }
}

fn message_from_json(m: &JsonValue) -> (r: AssistantMessage)
    ensures
        r@ == message_spec(*m),
{
    let mut content: Vec<ContentBlock> = Vec::new();
    match get_array(m, "content") {
        Some(items) => {
            let mut i: usize = 0;
            while i < items.len()
                invariant
                    i <= items@.len(),
                    content@.len() == i,
                    forall|k: int| 0 <= k < i ==> #[trigger] content@[k]@ == block_spec(items@[k]),
                decreases items@.len() - i,
            {
                let b = &items[i];
                let block_type = match get_str(b, "type") {
                    Some(s) => s,
                    None => String::new(),
                };
                content.push(ContentBlock { block_type, name: get_str(b, "name") });
                i = i + 1;
            }
        },
        None => {},
    }
    let usage = match get(m, "usage") {
        Some(u) => match u {
            JsonValue::Object(_) => Some(usage_from_json(u)),
            _ => None,
        },
        None => None,
    };
    let r = AssistantMessage { content, usage };
    assert(r@.content =~= message_spec(*m).content);
    r
}

fn core_event_from_json(v: &JsonValue, t: &str) -> (r: Option<ClaudeEvent>)
    ensures
        match r {
            Some(e) => core_event_spec(*v, t@) == Some(e@),
            None => core_event_spec(*v, t@) is None,
        },
{
    if str_eq(t, "system") {
        match get_str(v, "session_id") {
            Some(id) => Some(ClaudeEvent::System { session_id: id }),
            None => None,
        }
    } else if str_eq(t, "assistant") {
        match get(v, "message") {
            Some(m) => Some(ClaudeEvent::Assistant { message: message_from_json(m) }),
            None => None,
        }
    } else if str_eq(t, "result") {
        let num_turns = match get_u64(v, "num_turns") {
            Some(n) => n,
            None => 0,
        };
        Some(ClaudeEvent::Result { payload: ResultPayload { cost_usd: get_number_text(v, "total_cost_usd"), num_turns } })
    } else {
        None
    }
}

/// The event a parsed JSON document stands for.
pub fn bridge_event_from_json(v: &JsonValue) -> (r: Option<BridgeEvent>)
    ensures
        event_view(r) == bridge_event_spec(*v),
{
    let event_type = match get_str(v, "type") {
        Some(t) => t,
        None => return None,
    };
    if str_eq(event_type.as_str(), "content_block_delta") {
        return text_delta_from_json(v);
    }
    if str_eq(event_type.as_str(), "rate_limit_event") {
        return Some(rate_limit_from_json(v));
    }
    if str_eq(event_type.as_str(), "user") {
        match tool_result_from_json(v) {
            Some(e) => {
                return Some(e);
            },
            None => {},
        }
    }
    match core_event_from_json(v, event_type.as_str()) {
        Some(e) => Some(BridgeEvent::Core(e)),
        None => None,
    }
}

/// Parse a single NDJSON line into a `BridgeEvent`; `None` for an empty
/// line, a line that is not JSON, and a line that is no known event.
pub fn parse_bridge_event(line: &str) -> (r: Option<BridgeEvent>)
    ensures
        event_view(r) == parse_bridge_event_spec(line@),
{
    if line.is_empty() {
        return None;
    }
    match parse_json(line) {
        Some(v) => bridge_event_from_json(&v),
        None => None,
    }
}


// ── Session metrics ──────────────────────────────────────────────────────

/// Aggregated session metrics, readable by any consumer.
///
/// The context share is kept exactly, as the input tokens counted at the
/// last estimate over the context window they were measured against.
#[derive(Debug)]
pub struct SessionMetrics {
    pub input_tokens: u64,
    pub output_tokens: u64,
    pub cache_read_tokens: u64,
    pub cache_creation_tokens: u64,
    /// Decimal text of the last reported cost in USD.
    pub cost_usd: Option<String>,
    /// Input tokens at the last context estimate: the share of the window
    /// in use is `context_used / context_window` (0 for an empty window).
    pub context_used: u64,
    /// The context window of the last estimate.
    pub context_window: u64,
    pub num_turns: u64,
    pub tool_use_count: u64,
    pub active_tool: Option<String>,
    pub rate_limit_status: Option<String>,
    pub model: String,
    pub session_id: Option<String>,
}

impl Default for SessionMetrics {
    fn default() -> (r: Self)
        ensures
            r.input_tokens == 0,
            r.output_tokens == 0,
            r.cache_read_tokens == 0,
            r.cache_creation_tokens == 0,
            r.cost_usd is None,
            r.context_used == 0,
            r.context_window == 0,
            r.num_turns == 0,
            r.tool_use_count == 0,
            r.active_tool is None,
            r.rate_limit_status is None,
            r.model@ == Seq::<char>::empty(),
            r.session_id is None,
    {
        SessionMetrics {
            input_tokens: 0,
            output_tokens: 0,
            cache_read_tokens: 0,
            cache_creation_tokens: 0,
            cost_usd: None,
            context_used: 0,
            context_window: 0,
            num_turns: 0,
            tool_use_count: 0,
            active_tool: None,
            rate_limit_status: None,
            model: String::new(),
            session_id: None,
        }
    }
}

impl SessionMetrics {
    /// Estimate context window usage: the input tokens so far over
    /// `context_window`, kept exactly. Nothing else changes.
    pub fn update_context_pct(&mut self, context_window: u64)
        ensures
            final(self).context_used == old(self).input_tokens,
            final(self).context_window == context_window,
            final(self).input_tokens == old(self).input_tokens,
            final(self).output_tokens == old(self).output_tokens,
            final(self).cache_read_tokens == old(self).cache_read_tokens,
            final(self).cache_creation_tokens == old(self).cache_creation_tokens,
            final(self).cost_usd == old(self).cost_usd,
            final(self).num_turns == old(self).num_turns,
            final(self).tool_use_count == old(self).tool_use_count,
            final(self).active_tool == old(self).active_tool,
            final(self).rate_limit_status == old(self).rate_limit_status,
            final(self).model == old(self).model,
            final(self).session_id == old(self).session_id,
    {
        self.context_used = self.input_tokens;
        self.context_window = context_window;
    }
}

} // verus!
