//! Session bridge decisions: the arguments a headless agent CLI is started
//! with, the NDJSON line that carries a user message, how each event
//! updates the session metrics, and when the tmux statusline is pushed.
//!
//! The subprocess, its reader and writer tasks and the channels live in
//! the application around this library; they call these functions.

use vstd::prelude::*;

use crate::json::{
    json_unquote, lemma_concat_one_line, lemma_quote_one_line, lemma_quote_reads_back, one_line,
    json_fields_text, json_fields_writable, json_quote, json_text, json_to_string, json_writable,
    key_less, JsonValue,
};
use crate::protocol_ext::{BridgeEvent, ClaudeEvent, ContentBlock, SessionMetrics};
use crate::text::{
    chars_of, push_all, push_string, split_chars, split_on, string_from_chars, texts,
};

verus! {

/// The flags the agent CLI is started with for NDJSON streaming; the persona
/// prompt is appended only when it is not empty.
pub open spec fn stream_args_spec(model: Seq<char>, system_prompt: Seq<char>) -> Seq<Seq<char>> {
    let base = seq![
        "--output-format"@,
        "stream-json"@,
        "--input-format"@,
        "stream-json"@,
        "--verbose"@,
        "--include-partial-messages"@,
        "--model"@,
        model,
    ];
    if system_prompt.len() == 0 {
        base
    } else {
        base + seq!["--append-system-prompt"@, system_prompt]
    }
}

/// Arguments for the agent CLI as a headless NDJSON subprocess.
pub fn stream_session_args(model: &str, system_prompt: &str) -> (r: Vec<String>)
    ensures
        texts(r@) == stream_args_spec(model@, system_prompt@),
{
    let mut r: Vec<String> = Vec::new();
    push_string(&mut r, "--output-format");
    push_string(&mut r, "stream-json");
    push_string(&mut r, "--input-format");
    push_string(&mut r, "stream-json");
    push_string(&mut r, "--verbose");
    push_string(&mut r, "--include-partial-messages");
    push_string(&mut r, "--model");
    push_string(&mut r, model);
    if !system_prompt.is_empty() {
        push_string(&mut r, "--append-system-prompt");
        push_string(&mut r, system_prompt);
    }
    assert(texts(r@) =~= stream_args_spec(model@, system_prompt@));
    r
}

/// The NDJSON line (newline included) that sends `text` as a user
/// message: `{"message":{"content":TEXT,"role":"user"},"type":"user"}`,
/// as `serde_json` writes that object (members in key order, strings
/// escaped).
pub open spec fn user_message_line_spec(text: Seq<char>) -> Seq<char> {
    seq!['{'] + json_quote("message"@) + seq![':', '{'] + json_quote("content"@) + seq![':']
        + json_quote(text) + seq![','] + json_quote("role"@) + seq![':'] + json_quote("user"@)
        + seq!['}', ','] + json_quote("type"@) + seq![':'] + json_quote("user"@) + seq!['}', '\n']
}

/// The stdin line that delivers a user message to the subprocess: the
/// message object written by `serde_json`, then a newline.
pub fn user_message_line(text: &str) -> (r: String)
    ensures
        r@ == user_message_line_spec(text@),
{
    let content = JsonValue::Str(text.to_owned());
    let role = JsonValue::Str("user".to_owned());
    let mut inner_fields: Vec<(String, JsonValue)> = Vec::new();
    inner_fields.push(("content".to_owned(), content));
    inner_fields.push(("role".to_owned(), role));
    let mut fields: Vec<(String, JsonValue)> = Vec::new();
    fields.push(("message".to_owned(), JsonValue::Object(inner_fields)));
    fields.push(("type".to_owned(), JsonValue::Str("user".to_owned())));
    let msg = JsonValue::Object(fields);
    proof {
        reveal_strlit("content");
        reveal_strlit("role");
        reveal_strlit("message");
        reveal_strlit("type");
        let inner = fields@[0].1;
        let inner_fs = inner_fields@;
        assert(key_less("content"@, "role"@));
        assert(key_less("message"@, "type"@));
        assert(inner_fs.len() == 2);
        assert(inner_fs[0].1 is Str && inner_fs[1].1 is Str);
        assert(json_writable(inner_fs[0].1));
        assert(json_writable(inner_fs[1].1));
        assert(json_fields_writable(inner_fs, 0));
        assert(json_fields_writable(inner_fs, 1));
        assert(json_fields_writable(inner_fs, 2));
        assert(json_writable(inner));
        assert(fields@.len() == 2);
        assert(fields@[1].1 is Str);
        assert(json_writable(fields@[1].1));
        assert(json_fields_writable(fields@, 0));
        assert(json_fields_writable(fields@, 1));
        assert(json_fields_writable(fields@, 2));
        assert(json_writable(msg));
        assert(inner_fs[0].0@ == "content"@ && inner_fs[1].0@ == "role"@);
        assert(fields@[0].0@ == "message"@ && fields@[1].0@ == "type"@);
        assert(json_text(inner_fs[0].1) == json_quote(text@));
        assert(json_text(inner_fs[1].1) == json_quote("user"@));
        assert(json_text(fields@[1].1) == json_quote("user"@));
        assert(json_fields_text(inner_fs, 1) == json_quote("content"@) + seq![':'] + json_quote(text@));
        assert(json_fields_text(inner_fs, 2) == json_fields_text(inner_fs, 1) + seq![','] + json_quote(
            "role"@,
        ) + seq![':'] + json_quote("user"@));
        assert(json_fields_text(fields@, 1) == json_quote("message"@) + seq![':'] + json_text(inner));
        assert(json_fields_text(fields@, 2) == json_fields_text(fields@, 1) + seq![','] + json_quote(
            "type"@,
        ) + seq![':'] + json_quote("user"@));
    }
    let body = json_to_string(&msg);
    let mut cs = chars_of(body.as_str());
    cs.push('\n');
    assert(cs@ =~= user_message_line_spec(text@));
    string_from_chars(cs.as_slice())
}

/// A user message is exactly one NDJSON line: its only line feed ends it,
/// and the text is carried as a JSON string literal that reads back as the
/// text.
pub proof fn lemma_user_message_one_line(text: Seq<char>)
    ensures
        user_message_line_spec(text).last() == '\n',
        one_line(user_message_line_spec(text).drop_last()),
        json_unquote(json_quote(text)) == text,
{
    lemma_quote_reads_back(text);
    lemma_quote_one_line("message"@);
    lemma_quote_one_line("content"@);
    lemma_quote_one_line(text);
    lemma_quote_one_line("role"@);
    lemma_quote_one_line("user"@);
    lemma_quote_one_line("type"@);
    let a = seq!['{'] + json_quote("message"@);
    lemma_concat_one_line(seq!['{'], json_quote("message"@));
    let b = a + seq![':', '{'];
    lemma_concat_one_line(a, seq![':', '{']);
    let c = b + json_quote("content"@);
    lemma_concat_one_line(b, json_quote("content"@));
    let d = c + seq![':'];
    lemma_concat_one_line(c, seq![':']);
    let e = d + json_quote(text);
    lemma_concat_one_line(d, json_quote(text));
    let f = e + seq![','];
    lemma_concat_one_line(e, seq![',']);
    let g = f + json_quote("role"@);
    lemma_concat_one_line(f, json_quote("role"@));
    let h = g + seq![':'];
    lemma_concat_one_line(g, seq![':']);
    let i = h + json_quote("user"@);
    lemma_concat_one_line(h, json_quote("user"@));
    let j = i + seq!['}', ','];
    lemma_concat_one_line(i, seq!['}', ',']);
    let k = j + json_quote("type"@);
    lemma_concat_one_line(j, json_quote("type"@));
    let l = k + seq![':'];
    lemma_concat_one_line(k, seq![':']);
    let m = l + json_quote("user"@);
    lemma_concat_one_line(l, json_quote("user"@));
    let n = m + seq!['}'];
    lemma_concat_one_line(m, seq!['}']);
    let line = user_message_line_spec(text);
    assert(line =~= n + seq!['\n']);
    assert(line.drop_last() =~= n);
}

// ── Metrics ──────────────────────────────────────────────────────────────

/// Number of `tool_use` blocks among `blocks`.
pub open spec fn tool_uses(blocks: Seq<ContentBlock>) -> nat
    decreases blocks.len(),
{
    if blocks.len() == 0 {
        0
    } else {
        tool_uses(blocks.drop_last()) + if blocks.last().block_type@ == "tool_use"@ {
            1nat
        } else {
            0nat
        }
    }
}

/// The name of the last `tool_use` block among `blocks`, or `prev` when
/// there is none.
pub open spec fn last_tool_name(blocks: Seq<ContentBlock>, prev: Option<String>) -> Option<String>
    decreases blocks.len(),
{
    if blocks.len() == 0 {
        prev
    } else if blocks.last().block_type@ == "tool_use"@ {
        blocks.last().name
    } else {
        last_tool_name(blocks.drop_last(), prev)
    }
}

/// The context window the usage share is measured against.
pub open spec fn context_window_tokens() -> u64 {
    200_000
}

/// Whether an event's counts fit in the counters they are added to.
pub open spec fn update_fits(m: SessionMetrics, e: BridgeEvent) -> bool {
    match e {
        BridgeEvent::Core(ClaudeEvent::Assistant { message }) => {
            &&& m.tool_use_count + tool_uses(message.content@) <= u64::MAX
            &&& match message.usage {
                Some(u) => {
                    &&& m.input_tokens + u.input_tokens <= u64::MAX
                    &&& m.output_tokens + u.output_tokens <= u64::MAX
                    &&& m.cache_read_tokens + u.cache_read_input_tokens <= u64::MAX
                    &&& m.cache_creation_tokens + u.cache_creation_input_tokens <= u64::MAX
                },
                None => true,
            }
        },
        _ => true,
    }
}

/// The metrics after one event: the session id from `system`; tool-use
/// count, active tool and token totals from `assistant`; cost and turns
/// from `result`; the rate-limit status; a finished tool clears the
/// active tool.
pub open spec fn updated_metrics(m: SessionMetrics, e: BridgeEvent) -> SessionMetrics {
    match e {
        BridgeEvent::Core(ClaudeEvent::System { session_id }) => SessionMetrics {
            session_id: Some(session_id),
            ..m
        },
        BridgeEvent::Core(ClaudeEvent::Assistant { message }) => {
            let m1 = SessionMetrics {
                tool_use_count: (m.tool_use_count + tool_uses(message.content@)) as u64,
                active_tool: last_tool_name(message.content@, m.active_tool),
                ..m
            };
            match message.usage {
                Some(u) => SessionMetrics {
                    input_tokens: (m.input_tokens + u.input_tokens) as u64,
                    output_tokens: (m.output_tokens + u.output_tokens) as u64,
                    cache_read_tokens: (m.cache_read_tokens + u.cache_read_input_tokens) as u64,
                    cache_creation_tokens: (m.cache_creation_tokens
                        + u.cache_creation_input_tokens) as u64,
                    context_used: (m.input_tokens + u.input_tokens) as u64,
                    context_window: context_window_tokens(),
                    ..m1
                },
                None => m1,
            }
        },
        BridgeEvent::Core(ClaudeEvent::Result { payload }) => SessionMetrics {
            cost_usd: payload.cost_usd,
            num_turns: payload.num_turns,
            active_tool: None,
            ..m
        },
        BridgeEvent::RateLimit { status, resets_at: _ } => SessionMetrics {
            rate_limit_status: Some(status),
            ..m
        },
        BridgeEvent::ToolResult { tool_use_id: _, content: _ } => SessionMetrics {
            active_tool: None,
            ..m
        },
        _ => m,
    }
}

/// A copy of an optional string.
fn clone_opt(o: &Option<String>) -> (r: Option<String>)
    ensures
        r == *o,
{
    match o {
        Some(s) => Some(s.clone()),
        None => None,
    }
}

/// Whether `update_metrics` may apply `event` to `m`: its counts fit.
pub fn update_metrics_fits(m: &SessionMetrics, event: &BridgeEvent) -> (r: bool)
    ensures
        r == update_fits(*m, *event),
{
    match event {
        BridgeEvent::Core(ClaudeEvent::Assistant { message }) => {
            let n = count_tool_uses(&message.content);
            if (n as u128) + (m.tool_use_count as u128) > 0xffff_ffff_ffff_ffffu128 {
                return false;
            }
            match &message.usage {
                Some(u) => u.input_tokens <= u64::MAX - m.input_tokens && u.output_tokens <= u64::MAX
                    - m.output_tokens && u.cache_read_input_tokens <= u64::MAX - m.cache_read_tokens
                    && u.cache_creation_input_tokens <= u64::MAX - m.cache_creation_tokens,
                None => true,
            }
        },
        _ => true,
    }
}

/// Number of `tool_use` blocks.
fn count_tool_uses(blocks: &Vec<ContentBlock>) -> (r: usize)
    ensures
        r as nat == tool_uses(blocks@),
{
    let mut n: usize = 0;
    let mut i: usize = 0;
    while i < blocks.len()
        invariant
            i <= blocks@.len(),
            n <= i,
            n as nat == tool_uses(blocks@.take(i as int)),
        decreases blocks@.len() - i,
    {
        assert(blocks@.take(i + 1).drop_last() =~= blocks@.take(i as int));
        assert(blocks@.take(i + 1).last() == blocks@[i as int]);
        if crate::text::str_eq(blocks[i].block_type.as_str(), "tool_use") {
            n = n + 1;
        }
        i = i + 1;
    }
    assert(blocks@.take(blocks@.len() as int) =~= blocks@);
    n
}

/// Update `SessionMetrics` from a `BridgeEvent`.
pub fn update_metrics(m: &mut SessionMetrics, event: &BridgeEvent)
    requires
        update_fits(*old(m), *event),
    ensures
        *final(m) == updated_metrics(*old(m), *event),
{
    match event {
        BridgeEvent::Core(ClaudeEvent::System { session_id }) => {
            m.session_id = Some(session_id.clone());
        },
        BridgeEvent::Core(ClaudeEvent::Assistant { message }) => {
            let ghost m0 = *m;
            let mut i: usize = 0;
            while i < message.content.len()
                invariant
                    i <= message.content@.len(),
                    m0.tool_use_count + tool_uses(message.content@) <= u64::MAX,
                    *m == (SessionMetrics {
                        tool_use_count: (m0.tool_use_count + tool_uses(message.content@.take(i as int))) as u64,
                        active_tool: last_tool_name(message.content@.take(i as int), m0.active_tool),
                        ..m0
                    }),
                decreases message.content@.len() - i,
            {
                let ghost t = message.content@.take(i + 1);
                assert(t.drop_last() =~= message.content@.take(i as int));
                assert(t.last() == message.content@[i as int]);
                proof {
                    lemma_tool_uses_prefix(message.content@, i as int + 1);
                }
                let block = &message.content[i];
                if crate::text::str_eq(block.block_type.as_str(), "tool_use") {
                    m.tool_use_count = m.tool_use_count + 1;
                    m.active_tool = clone_opt(&block.name);
                }
                i = i + 1;
            }
            assert(message.content@.take(message.content@.len() as int) =~= message.content@);
            match &message.usage {
                Some(u) => {
                    m.input_tokens = m.input_tokens + u.input_tokens;
                    m.output_tokens = m.output_tokens + u.output_tokens;
                    m.cache_read_tokens = m.cache_read_tokens + u.cache_read_input_tokens;
                    m.cache_creation_tokens = m.cache_creation_tokens + u.cache_creation_input_tokens;
                    m.update_context_pct(200_000);
                },
                None => {},
            }
        },
        BridgeEvent::Core(ClaudeEvent::Result { payload }) => {
            m.cost_usd = clone_opt(&payload.cost_usd);
            m.num_turns = payload.num_turns;
            m.active_tool = None;
        },
        BridgeEvent::RateLimit { status, resets_at: _ } => {
            m.rate_limit_status = Some(status.clone());
        },
        BridgeEvent::ToolResult { tool_use_id: _, content: _ } => {
            m.active_tool = None;
        },
        _ => {},
    }
}

/// Tool uses of a prefix never exceed those of the whole sequence.
proof fn lemma_tool_uses_prefix(blocks: Seq<ContentBlock>, k: int)
    requires
        0 <= k <= blocks.len(),
    ensures
        tool_uses(blocks.take(k)) <= tool_uses(blocks),
    decreases blocks.len() - k,
{
    if k < blocks.len() {
        lemma_tool_uses_prefix(blocks, k + 1);
        assert(blocks.take(k + 1).drop_last() =~= blocks.take(k));
    } else {
        assert(blocks.take(k) =~= blocks);
    }
}

/// Counters only accumulate: no event lowers a token total or the
/// tool-use count, and no event changes the model.
pub proof fn lemma_counters_never_decrease(m: SessionMetrics, e: BridgeEvent)
    requires
        update_fits(m, e),
    ensures
        updated_metrics(m, e).input_tokens >= m.input_tokens,
        updated_metrics(m, e).output_tokens >= m.output_tokens,
        updated_metrics(m, e).cache_read_tokens >= m.cache_read_tokens,
        updated_metrics(m, e).cache_creation_tokens >= m.cache_creation_tokens,
        updated_metrics(m, e).tool_use_count >= m.tool_use_count,
        updated_metrics(m, e).model == m.model,
{
}

/// Each token total is the sum of the counts reported: an assistant
/// message with usage adds each of its four counts to the matching total,
/// and the context estimate is then the new input total over the 200 000
/// token window. An assistant message adds its `tool_use` blocks to the
/// tool-use count, and every other event leaves the totals unchanged.
pub proof fn lemma_token_totals_add(m: SessionMetrics, e: BridgeEvent)
    requires
        update_fits(m, e),
    ensures
        e matches BridgeEvent::Core(ClaudeEvent::Assistant { message }) ==> {
            &&& updated_metrics(m, e).tool_use_count == m.tool_use_count + tool_uses(message.content@)
            &&& match message.usage {
                Some(u) => {
                    &&& updated_metrics(m, e).input_tokens == m.input_tokens + u.input_tokens
                    &&& updated_metrics(m, e).output_tokens == m.output_tokens + u.output_tokens
                    &&& updated_metrics(m, e).cache_read_tokens == m.cache_read_tokens
                        + u.cache_read_input_tokens
                    &&& updated_metrics(m, e).cache_creation_tokens == m.cache_creation_tokens
                        + u.cache_creation_input_tokens
                    &&& updated_metrics(m, e).context_used == m.input_tokens + u.input_tokens
                    &&& updated_metrics(m, e).context_window == 200_000
                },
                None => {
                    &&& updated_metrics(m, e).input_tokens == m.input_tokens
                    &&& updated_metrics(m, e).output_tokens == m.output_tokens
                    &&& updated_metrics(m, e).cache_read_tokens == m.cache_read_tokens
                    &&& updated_metrics(m, e).cache_creation_tokens == m.cache_creation_tokens
                },
            }
        },
        !(e matches BridgeEvent::Core(ClaudeEvent::Assistant { .. })) ==> {
            &&& updated_metrics(m, e).input_tokens == m.input_tokens
            &&& updated_metrics(m, e).output_tokens == m.output_tokens
            &&& updated_metrics(m, e).cache_read_tokens == m.cache_read_tokens
            &&& updated_metrics(m, e).cache_creation_tokens == m.cache_creation_tokens
            &&& updated_metrics(m, e).tool_use_count == m.tool_use_count
            &&& updated_metrics(m, e).context_used == m.context_used
            &&& updated_metrics(m, e).context_window == m.context_window
        },
{
}

/// What each other event records: `system` its session id, `result` its
/// cost and turn count, a rate-limit notice its status; the model never
/// changes.
pub proof fn lemma_event_fields(m: SessionMetrics, e: BridgeEvent)
    requires
        update_fits(m, e),
    ensures
        updated_metrics(m, e).model == m.model,
        e matches BridgeEvent::Core(ClaudeEvent::System { session_id }) ==> updated_metrics(
            m,
            e,
        ).session_id == Some(session_id),
        e matches BridgeEvent::Core(ClaudeEvent::Result { payload }) ==> updated_metrics(
            m,
            e,
        ).cost_usd == payload.cost_usd && updated_metrics(m, e).num_turns == payload.num_turns,
        e matches BridgeEvent::RateLimit { status, .. } ==> updated_metrics(m, e).rate_limit_status
            == Some(status),
        !(e matches BridgeEvent::Core(ClaudeEvent::System { .. })) ==> updated_metrics(m, e).session_id
            == m.session_id,
        !(e matches BridgeEvent::Core(ClaudeEvent::Result { .. })) ==> updated_metrics(m, e).num_turns
            == m.num_turns && updated_metrics(m, e).cost_usd == m.cost_usd,
        !(e matches BridgeEvent::RateLimit { .. }) ==> updated_metrics(m, e).rate_limit_status
            == m.rate_limit_status,
{
}

/// The active tool after an assistant message is the name of its last
/// `tool_use` block, or unchanged when it has none.
pub proof fn lemma_active_tool_is_last_use(m: SessionMetrics, blocks: Seq<ContentBlock>, k: int)
    requires
        0 <= k < blocks.len(),
        blocks[k].block_type@ == "tool_use"@,
        forall|j: int| k < j < blocks.len() ==> #[trigger] blocks[j].block_type@ != "tool_use"@,
    ensures
        last_tool_name(blocks, m.active_tool) == blocks[k].name,
    decreases blocks.len(),
{
    if k < blocks.len() - 1 {
        assert(blocks.drop_last()[k] == blocks[k]);
        assert forall|j: int| k < j < blocks.drop_last().len() implies #[trigger] blocks.drop_last()[j].block_type@
            != "tool_use"@ by {
            assert(blocks.drop_last()[j] == blocks[j]);
        }
        lemma_active_tool_is_last_use(m, blocks.drop_last(), k);
    }
}

/// The tool-use count of a message counts its blocks one by one: a block
/// counts one exactly when its type is `tool_use`, and the counts of two
/// runs of blocks add up.
pub proof fn lemma_tool_uses_count_blocks(a: Seq<ContentBlock>, b: Seq<ContentBlock>)
    ensures
        tool_uses(a + b) == tool_uses(a) + tool_uses(b),
        forall|x: ContentBlock| #[trigger] tool_uses(seq![x]) == if x.block_type@ == "tool_use"@ {
            1nat
        } else {
            0nat
        },
    decreases b.len(),
{
    assert forall|x: ContentBlock| #[trigger] tool_uses(seq![x]) == if x.block_type@ == "tool_use"@ {
        1nat
    } else {
        0nat
    } by {
        let one = seq![x];
        assert(one.drop_last() =~= Seq::<ContentBlock>::empty());
        assert(tool_uses(one.drop_last()) == 0);
        assert(one.last() == x);
    }
    if b.len() == 0 {
        assert(a + b =~= a);
    } else {
        lemma_tool_uses_count_blocks(a, b.drop_last());
        assert((a + b).drop_last() =~= a + b.drop_last());
        assert((a + b).last() == b.last());
    }
}

/// A message without `tool_use` blocks leaves the active tool as it was.
pub proof fn lemma_no_tool_use_keeps_active(blocks: Seq<ContentBlock>, prev: Option<String>)
    requires
        forall|j: int| 0 <= j < blocks.len() ==> #[trigger] blocks[j].block_type@ != "tool_use"@,
    ensures
        last_tool_name(blocks, prev) == prev,
        tool_uses(blocks) == 0,
    decreases blocks.len(),
{
    if blocks.len() > 0 {
        assert forall|j: int| 0 <= j < blocks.drop_last().len() implies #[trigger] blocks.drop_last()[j].block_type@
            != "tool_use"@ by {
            assert(blocks.drop_last()[j] == blocks[j]);
        }
        lemma_no_tool_use_keeps_active(blocks.drop_last(), prev);
        assert(blocks.last() == blocks[blocks.len() - 1]);
    }
}

/// A finished tool or a finished turn clears the active tool.
pub proof fn lemma_tool_result_clears_active_tool(m: SessionMetrics, e: BridgeEvent)
    requires
        e matches BridgeEvent::ToolResult { .. } || e matches BridgeEvent::Core(ClaudeEvent::Result { .. }),
    ensures
        updated_metrics(m, e).active_tool is None,
{
}

// ── tmux statusline ──────────────────────────────────────────────────────

/// The character shown in the statusline: the part of the theme slug
/// after its last `/` (the whole slug when it has none).
pub open spec fn character_name_spec(theme: Seq<char>) -> Seq<char> {
    split_on(theme, '/').last()
}

/// The statusline's character name for a theme slug.
pub fn statusline_character_name(theme: &str) -> (r: String)
    ensures
        r@ == character_name_spec(theme@),
{
    let cs = chars_of(theme);
    let pieces = split_chars(&cs, '/');
    proof {
        crate::text::lemma_split_on_nonempty(cs@, '/');
    }
    let last = pieces.len() - 1;
    string_from_chars(pieces[last].as_slice())
}

/// Whether the statusline is pushed: it is enabled and token data has
/// arrived.
pub fn should_push_statusline(enabled: bool, m: &SessionMetrics) -> (r: bool)
    ensures
        r == (enabled && m.input_tokens != 0),
{
    enabled && m.input_tokens != 0
}

} // verus!
