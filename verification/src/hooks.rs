//! Session audit trail: recorded events and tool invocations, with
//! per-tool counts and the failed invocations.

use vstd::prelude::*;

verus! {

/// A recorded event in the session audit trail.
#[derive(Debug)]
pub struct HookEvent {
    pub timestamp: String,
    pub event: String,
    pub session_id: String,
    pub data: serde_json::Value,
}

/// A record of a tool invocation.
#[derive(Debug, Clone)]
pub struct ToolUsageRecord {
    pub tool_name: String,
    pub tool_use_id: Option<String>,
    pub input_summary: String,
    pub timestamp: String,
    pub duration_ms: Option<u64>,
    pub success: Option<bool>,
}

/// Tracks tool usage and session events.
pub struct SessionHooks {
    events: Vec<HookEvent>,
    tool_usage: Vec<ToolUsageRecord>,
    session_id: String,
}

/// Whether `c` is an ASCII digit.
pub open spec fn is_digit(c: char) -> bool {
    '0' <= c && c <= '9'
}

/// Whether `s` is all ASCII digits.
pub open spec fn all_digits(s: Seq<char>) -> bool {
    forall|i: int| 0 <= i < s.len() ==> is_digit(#[trigger] s[i])
}

/// A year as RFC 3339 text: four digits, or (outside 0..=9999) a sign and
/// at least four digits.
pub open spec fn year_text(y: Seq<char>) -> bool {
    ||| y.len() == 4 && all_digits(y)
    ||| y.len() >= 5 && (y[0] == '+' || y[0] == '-') && all_digits(y.drop_first())
}

/// Fractional seconds: none, or a dot and three, six or nine digits.
pub open spec fn fraction_text(f: Seq<char>) -> bool {
    ||| f.len() == 0
    ||| (f.len() == 4 || f.len() == 7 || f.len() == 10) && f[0] == '.' && all_digits(f.drop_first())
}

/// `s` is `YEAR-MM-DDTHH:MM:SS[.fraction]+00:00` with the year's text
/// ending at `k`.
pub open spec fn rfc3339_utc_at(s: Seq<char>, k: int) -> bool {
    &&& 4 <= k
    &&& k + 21 <= s.len()
    &&& year_text(s.take(k))
    &&& s[k] == '-'
    &&& all_digits(s.subrange(k + 1, k + 3))
    &&& s[k + 3] == '-'
    &&& all_digits(s.subrange(k + 4, k + 6))
    &&& s[k + 6] == 'T'
    &&& all_digits(s.subrange(k + 7, k + 9))
    &&& s[k + 9] == ':'
    &&& all_digits(s.subrange(k + 10, k + 12))
    &&& s[k + 12] == ':'
    &&& all_digits(s.subrange(k + 13, k + 15))
    &&& fraction_text(s.subrange(k + 15, s.len() - 6))
    &&& s.skip(s.len() - 6) == "+00:00"@
}

/// An RFC 3339 UTC timestamp as `chrono` writes one.
pub open spec fn rfc3339_utc(s: Seq<char>) -> bool {
    exists|k: int| rfc3339_utc_at(s, k)
}

/// `chrono::Utc::now().to_rfc3339()`: the current time, which depends on
/// the clock. Its shape is stated, as `write_rfc3339` produces it for UTC:
/// date, `T`, time, fractional seconds when there are any, `+00:00`.
#[verifier::external_body]
fn now_rfc3339() -> (r: String)
    ensures
        rfc3339_utc(r@),
{
    chrono::Utc::now().to_rfc3339()
}

/// The tool names of `records`, in order.
pub open spec fn tool_names(records: Seq<ToolUsageRecord>) -> Seq<Seq<char>> {
    records.map_values(|r: ToolUsageRecord| r.tool_name@)
}

/// Each name of `names` once, in order of first appearance.
pub open spec fn distinct_names(names: Seq<Seq<char>>) -> Seq<Seq<char>>
    decreases names.len(),
{
    if names.len() == 0 {
        Seq::empty()
    } else {
        let d = distinct_names(names.drop_last());
        if d.contains(names.last()) {
            d
        } else {
            d.push(names.last())
        }
    }
}

/// How many times `name` occurs in `names`.
pub open spec fn occurrences(names: Seq<Seq<char>>, name: Seq<char>) -> nat
    decreases names.len(),
{
    if names.len() == 0 {
        0
    } else {
        occurrences(names.drop_last(), name) + if names.last() == name {
            1nat
        } else {
            0nat
        }
    }
}

/// The records whose invocation failed, in order.
pub open spec fn failed_records(records: Seq<ToolUsageRecord>) -> Seq<ToolUsageRecord>
    decreases records.len(),
{
    if records.len() == 0 {
        Seq::empty()
    } else {
        let f = failed_records(records.drop_last());
        if records.last().success == Some(false) {
            f.push(records.last())
        } else {
            f
        }
    }
}

impl SessionHooks {
    /// The events recorded so far, oldest first.
    pub closed spec fn recorded_events(&self) -> Seq<HookEvent> {
        self.events@
    }

    /// The tool invocations recorded so far, oldest first.
    pub closed spec fn recorded_tools(&self) -> Seq<ToolUsageRecord> {
        self.tool_usage@
    }

    /// The session the hooks belong to.
    pub closed spec fn hook_session(&self) -> Seq<char> {
        self.session_id@
    }

    pub fn new(session_id: String) -> (r: Self)
        ensures
            r.recorded_events() == Seq::<HookEvent>::empty(),
            r.recorded_tools() == Seq::<ToolUsageRecord>::empty(),
            r.hook_session() == session_id@,
    {
        Self { events: Vec::new(), tool_usage: Vec::new(), session_id }
    }

    /// Records an event with the current time (RFC 3339, UTC) and this
    /// session's id.
    pub fn record_event(&mut self, event: &str, data: serde_json::Value)
        ensures
            final(self).recorded_events().len() == old(self).recorded_events().len() + 1,
            final(self).recorded_events().drop_last() == old(self).recorded_events(),
            final(self).recorded_events().last().event@ == event@,
            final(self).recorded_events().last().session_id@ == old(self).hook_session(),
            final(self).recorded_events().last().data == data,
            rfc3339_utc(final(self).recorded_events().last().timestamp@),
            final(self).recorded_tools() == old(self).recorded_tools(),
            final(self).hook_session() == old(self).hook_session(),
    {
        let e = HookEvent {
            timestamp: now_rfc3339(),
            event: event.to_owned(),
            session_id: self.session_id.clone(),
            data,
        };
        self.events.push(e);
        assert(self.events@.drop_last() =~= old(self).events@);
    }

    /// Records a tool invocation with the current time (RFC 3339, UTC); its
    /// duration and outcome are not known yet.
    pub fn record_tool_use(&mut self, tool_name: &str, input_summary: &str, tool_use_id: Option<&str>)
        ensures
            final(self).recorded_tools().len() == old(self).recorded_tools().len() + 1,
            final(self).recorded_tools().drop_last() == old(self).recorded_tools(),
            final(self).recorded_tools().last().tool_name@ == tool_name@,
            final(self).recorded_tools().last().input_summary@ == input_summary@,
            match tool_use_id {
                Some(id) => final(self).recorded_tools().last().tool_use_id matches Some(s) && s@
                    == id@,
                None => final(self).recorded_tools().last().tool_use_id is None,
            },
            final(self).recorded_tools().last().duration_ms is None,
            final(self).recorded_tools().last().success is None,
            rfc3339_utc(final(self).recorded_tools().last().timestamp@),
            final(self).recorded_events() == old(self).recorded_events(),
            final(self).hook_session() == old(self).hook_session(),
    {
        let id = match tool_use_id {
            Some(s) => Some(s.to_owned()),
            None => None,
        };
        let record = ToolUsageRecord {
            tool_name: tool_name.to_owned(),
            tool_use_id: id,
            input_summary: input_summary.to_owned(),
            timestamp: now_rfc3339(),
            duration_ms: None,
            success: None,
        };
        self.tool_usage.push(record);
        assert(self.tool_usage@.drop_last() =~= old(self).tool_usage@);
    }

    /// How many times each tool was used: each tool name once, in order of
    /// first use, with its count.
    pub fn tool_counts(&self) -> (r: Vec<(String, usize)>)
        ensures
            r@.map_values(|p: (String, usize)| p.0@) == distinct_names(tool_names(self.recorded_tools())),
            forall|k: int|
                0 <= k < r@.len() ==> #[trigger] r@[k].1 as nat == occurrences(
                    tool_names(self.recorded_tools()),
                    r@[k].0@,
                ),
    {
        let ghost names = tool_names(self.tool_usage@);
        let mut r: Vec<(String, usize)> = Vec::new();
        let mut i: usize = 0;
        while i < self.tool_usage.len()
            invariant
                names == tool_names(self.tool_usage@),
                i <= self.tool_usage@.len(),
                r@.map_values(|p: (String, usize)| p.0@) == distinct_names(names.take(i as int)),
                forall|k: int|
                    0 <= k < r@.len() ==> #[trigger] r@[k].1 as nat == occurrences(
                        names.take(i as int),
                        r@[k].0@,
                    ),
                forall|k: int| 0 <= k < r@.len() ==> #[trigger] r@[k].1 <= i,
            decreases self.tool_usage@.len() - i,
        {
            let ghost prefix = names.take(i as int);
            let ghost next = names.take(i + 1);
            assert(next.drop_last() =~= prefix);
            assert(next.last() == names[i as int]);
            let name = &self.tool_usage[i].tool_name;
            let mut j: usize = 0;
            let mut found = false;
            while j < r.len()
                invariant_except_break
                    !found,
                invariant
                    j <= r@.len(),
                    forall|k: int| 0 <= k < j ==> #[trigger] r@[k].0@ != name@,
                ensures
                    found ==> j < r@.len() && r@[j as int].0@ == name@,
                    !found ==> j == r@.len(),
                decreases r@.len() - j,
            {
                if crate::text::str_eq(r[j].0.as_str(), name.as_str()) {
                    found = true;
                    break;
                }
                j = j + 1;
            }
            let ghost keys = r@.map_values(|p: (String, usize)| p.0@);
            proof {
                lemma_distinct_names_unique(prefix);
                if !found {
                    assert forall|k: int| 0 <= k < keys.len() implies keys[k] != name@ by {
                        assert(keys[k] == r@[k].0@);
                    }
                    assert(!keys.contains(name@));
                    lemma_absent_name_unused(prefix, name@);
                } else {
                    assert(keys[j as int] == name@);
                    assert(keys.contains(name@));
                }
            }
            if found {
                let old_count = r[j].1;
                let key = r[j].0.clone();
                r.set(j, (key, old_count + 1));
                proof {
                    assert forall|k: int| 0 <= k < r@.len() implies #[trigger] r@[k].1 as nat == occurrences(
                        next,
                        r@[k].0@,
                    ) by {
                        if k != j {
                            assert(keys[k] != keys[j as int]);
                        }
                    }
                    assert(r@.map_values(|p: (String, usize)| p.0@) =~= keys);
                }
            } else {
                r.push((name.clone(), 1));
                proof {
                    assert forall|k: int| 0 <= k < r@.len() implies #[trigger] r@[k].1 as nat == occurrences(
                        next,
                        r@[k].0@,
                    ) by {
                        if k < r@.len() - 1 {
                            assert(keys[k] != name@);
                        }
                    }
                    assert(r@.map_values(|p: (String, usize)| p.0@) =~= keys.push(name@));
                }
            }
            i = i + 1;
        }
        assert(names.take(self.tool_usage@.len() as int) =~= names);
        r
    }

    /// The invocations that failed, in order.
    pub fn failed_tools(&self) -> (r: Vec<&ToolUsageRecord>)
        ensures
            r@.map_values(|x: &ToolUsageRecord| *x) == failed_records(self.recorded_tools()),
    {
        let mut r: Vec<&ToolUsageRecord> = Vec::new();
        let mut i: usize = 0;
        while i < self.tool_usage.len()
            invariant
                i <= self.tool_usage@.len(),
                r@.map_values(|x: &ToolUsageRecord| *x) == failed_records(self.tool_usage@.take(i as int)),
            decreases self.tool_usage@.len() - i,
        {
            let ghost before = r@.map_values(|x: &ToolUsageRecord| *x);
            assert(self.tool_usage@.take(i + 1).drop_last() =~= self.tool_usage@.take(i as int));
            assert(self.tool_usage@.take(i + 1).last() == self.tool_usage@[i as int]);
            let record = &self.tool_usage[i];
            let failed = match record.success {
                Some(ok) => !ok,
                None => false,
            };
            if failed {
                r.push(record);
                assert(r@.map_values(|x: &ToolUsageRecord| *x) =~= before.push(*record));
            }
            i = i + 1;
        }
        assert(self.tool_usage@.take(self.tool_usage@.len() as int) =~= self.tool_usage@);
        r
    }

    /// The recorded events, oldest first.
    pub fn events(&self) -> (r: &[HookEvent])
        ensures
            r@ == self.recorded_events(),
    {
        self.events.as_slice()
    }

    /// The recorded tool invocations, oldest first.
    pub fn tool_usage(&self) -> (r: &[ToolUsageRecord])
        ensures
            r@ == self.recorded_tools(),
    {
        self.tool_usage.as_slice()
    }
}

/// The failed invocations are exactly those whose outcome is a failure:
/// each reported one failed, and there are no more of them than records.
pub proof fn lemma_failed_are_failures(records: Seq<ToolUsageRecord>)
    ensures
        failed_records(records).len() <= records.len(),
        forall|k: int|
            0 <= k < failed_records(records).len() ==> #[trigger] failed_records(records)[k].success
                == Some(false),
    decreases records.len(),
{
    if records.len() > 0 {
        lemma_failed_are_failures(records.drop_last());
    }
}

/// The sum, over `keys`, of how often each occurs in `names`.
pub open spec fn counted(keys: Seq<Seq<char>>, names: Seq<Seq<char>>) -> nat
    decreases keys.len(),
{
    if keys.len() == 0 {
        0
    } else {
        counted(keys.drop_last(), names) + occurrences(names, keys.last())
    }
}

proof fn lemma_counted_push_name(keys: Seq<Seq<char>>, names: Seq<Seq<char>>, x: Seq<char>)
    ensures
        counted(keys, names.push(x)) == counted(keys, names) + occurrences(keys, x),
    decreases keys.len(),
{
    assert(names.push(x).drop_last() =~= names);
    if keys.len() > 0 {
        lemma_counted_push_name(keys.drop_last(), names, x);
    }
}

proof fn lemma_unique_occurs_once(keys: Seq<Seq<char>>, x: Seq<char>)
    requires
        forall|a: int, b: int| 0 <= a < b < keys.len() ==> keys[a] != keys[b],
    ensures
        occurrences(keys, x) == if keys.contains(x) { 1nat } else { 0nat },
    decreases keys.len(),
{
    if keys.len() > 0 {
        let p = keys.drop_last();
        lemma_unique_occurs_once(p, x);
        if p.contains(x) {
            let k = choose|k: int| 0 <= k < p.len() && p[k] == x;
            assert(keys[k] == x);
            assert(keys.contains(x));
            assert(keys.last() != x) by {
                assert(keys[k] != keys[keys.len() - 1]);
            }
        } else if keys.last() == x {
            assert(keys[keys.len() - 1] == x);
        } else {
            assert(!keys.contains(x)) by {
                if keys.contains(x) {
                    let k = choose|k: int| 0 <= k < keys.len() && keys[k] == x;
                    assert(k < keys.len() - 1);
                    assert(p[k] == x);
                }
            }
        }
    }
}

/// The per-tool counts add up to the number of recorded tool uses: every
/// use is counted under exactly one name.
pub proof fn lemma_tool_counts_total(records: Seq<ToolUsageRecord>)
    ensures
        counted(distinct_names(tool_names(records)), tool_names(records)) == records.len(),
{
    lemma_counts_cover_every_use(tool_names(records));
}

/// Counting each distinct name's occurrences covers every name once.
pub proof fn lemma_counts_cover_every_use(names: Seq<Seq<char>>)
    ensures
        counted(distinct_names(names), names) == names.len(),
    decreases names.len(),
{
    if names.len() > 0 {
        let p = names.drop_last();
        let x = names.last();
        let d = distinct_names(p);
        lemma_counts_cover_every_use(p);
        lemma_distinct_names_unique(p);
        assert(p.push(x) =~= names);
        lemma_counted_push_name(d, p, x);
        lemma_unique_occurs_once(d, x);
        if !d.contains(x) {
            lemma_absent_name_unused(p, x);
            assert(d.push(x).drop_last() =~= d);
        }
    }
}

/// The distinct names hold each name once.
pub proof fn lemma_distinct_names_unique(names: Seq<Seq<char>>)
    ensures
        forall|a: int, b: int|
            0 <= a < b < distinct_names(names).len() ==> distinct_names(names)[a] != distinct_names(
                names,
            )[b],
    decreases names.len(),
{
    if names.len() > 0 {
        lemma_distinct_names_unique(names.drop_last());
        let d = distinct_names(names.drop_last());
        if !d.contains(names.last()) {
            let e = d.push(names.last());
            assert forall|a: int, b: int| 0 <= a < b < e.len() implies e[a] != e[b] by {
                if b == d.len() && e[a] == e[b] {
                    assert(d[a] == names.last());
                    assert(d.contains(names.last()));
                }
            }
        }
    }
}

/// A name that is not among the distinct names does not occur.
pub proof fn lemma_absent_name_unused(names: Seq<Seq<char>>, name: Seq<char>)
    requires
        !distinct_names(names).contains(name),
    ensures
        occurrences(names, name) == 0,
    decreases names.len(),
{
    if names.len() > 0 {
        let d = distinct_names(names.drop_last());
        if d.contains(name) {
            let k = choose|k: int| 0 <= k < d.len() && d[k] == name;
            if !d.contains(names.last()) {
                assert(d.push(names.last())[k] == name);
            }
        }
        lemma_absent_name_unused(names.drop_last(), name);
        if names.last() == name {
            assert(distinct_names(names).contains(name)) by {
                if d.contains(names.last()) {
                } else {
                    assert(d.push(names.last())[d.len() as int] == name);
                }
            }
        }
    }
}

} // verus!
