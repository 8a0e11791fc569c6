//! JSON values as the library reads them, and the calls into `serde_json`
//! that parse and print them.

use vstd::prelude::*;

use crate::text::str_eq;

verus! {

/// `serde_json::Value`, declared so that it can be carried through
/// library types (it is opaque to the proofs).
#[verifier::external_type_specification]
#[verifier::external_body]
pub struct ExSerdeJsonValue(serde_json::Value);

/// A JSON number: its value when it is a non-negative integer that fits in
/// `u64`, and its canonical decimal text.
#[derive(Debug)]
pub struct JsonNumber {
    pub as_u64: Option<u64>,
    pub text: String,
}

/// A parsed JSON document. Object members keep the order in which the
/// parser lists them, each key once.
#[derive(Debug)]
pub enum JsonValue {
    Null,
    Bool(bool),
    Number(JsonNumber),
    Str(String),
    Array(Vec<JsonValue>),
    Object(Vec<(String, JsonValue)>),
}

/// The document that `serde_json::from_str::<serde_json::Value>` reads
/// from `text`, or `None` when `text` is not JSON.
pub uninterp spec fn json_parse(text: Seq<char>) -> Option<JsonValue>;

/// The compact text that `serde_json::to_string` writes for the document
/// parsed from `text`, or for `null` when `text` is not JSON.
pub uninterp spec fn json_compact_text(text: Seq<char>) -> Seq<char>;

impl JsonValue {
    /// Converts the library's value variant by variant into a
    /// `serde_json::Value`: a number from its text, arrays element by
    /// element, objects member by member. Only `json_to_string` calls it.
    #[verifier::external_body]
    fn to_serde(&self) -> serde_json::Value {
        match self {
            JsonValue::Null => serde_json::Value::Null,
            JsonValue::Bool(b) => serde_json::Value::Bool(*b),
            JsonValue::Number(n) => n.text.parse().map_or(serde_json::Value::Null, serde_json::Value::Number),
            JsonValue::Str(s) => serde_json::Value::String(s.clone()),
            JsonValue::Array(a) => serde_json::Value::Array(a.iter().map(JsonValue::to_serde).collect()),
            JsonValue::Object(fs) => serde_json::Value::Object(
                fs.iter().map(|(k, x)| (k.clone(), x.to_serde())).collect(),
            ),
        }
    }

    /// Converts a `serde_json::Value` variant by variant into the library's
    /// value: numbers keep `as_u64` and their `Display` text, arrays and
    /// objects are converted element by element in the order `serde_json`
    /// iterates them. Only `parse_json` calls it.
    #[verifier::external_body]
    fn from_serde(v: &serde_json::Value) -> JsonValue {
        match v {
            serde_json::Value::Null => JsonValue::Null,
            serde_json::Value::Bool(b) => JsonValue::Bool(*b),
            serde_json::Value::Number(n) => JsonValue::Number(
                JsonNumber { as_u64: n.as_u64(), text: n.to_string() },
            ),
            serde_json::Value::String(s) => JsonValue::Str(s.clone()),
            serde_json::Value::Array(a) => JsonValue::Array(a.iter().map(JsonValue::from_serde).collect()),
            serde_json::Value::Object(m) => JsonValue::Object(
                m.iter().map(|(k, x)| (k.clone(), JsonValue::from_serde(x))).collect(),
            ),
        }
    }
}

/// `serde_json::from_str::<serde_json::Value>`, converted to a
/// `JsonValue`. The result is named: it is whatever that parser reads
/// from `text`, `None` where it reports an error.
#[verifier::external_body]
pub fn parse_json(text: &str) -> (r: Option<JsonValue>)
    ensures
        r == json_parse(text@),
{
    serde_json::from_str::<serde_json::Value>(text).ok().map(|v| JsonValue::from_serde(&v))
}

// ── Writing values ───────────────────────────────────────────────────────

/// The hexadecimal digit for `d < 16`, lower case.
pub open spec fn hex_digit(d: int) -> char {
    if d < 10 {
        (48 + d) as char
    } else {
        (97 + d - 10) as char
    }
}

/// How `serde_json` writes `c` inside a string literal: `"` and `\`
/// behind a backslash; backspace, tab, line feed, form feed and carriage
/// return as `\b \t \n \f \r`; other control characters below 0x20
/// as `\u00` and two lower-case hex digits; every other character as is.
pub open spec fn json_escape(c: char) -> Seq<char> {
    let u = c as u32;
    if c == '"' {
        seq!['\\', '"']
    } else if c == '\\' {
        seq!['\\', '\\']
    } else if u == 8 {
        seq!['\\', 'b']
    } else if u == 9 {
        seq!['\\', 't']
    } else if u == 10 {
        seq!['\\', 'n']
    } else if u == 12 {
        seq!['\\', 'f']
    } else if u == 13 {
        seq!['\\', 'r']
    } else if u < 32 {
        seq!['\\', 'u', '0', '0', hex_digit((u / 16) as int), hex_digit((u % 16) as int)]
    } else {
        seq![c]
    }
}

/// The characters of `s`, each escaped.
pub open spec fn json_escaped(s: Seq<char>) -> Seq<char>
    decreases s.len(),
{
    if s.len() == 0 {
        Seq::empty()
    } else {
        json_escape(s[0]) + json_escaped(s.drop_first())
    }
}

/// The JSON string literal `serde_json` writes for `s`.
pub open spec fn json_quote(s: Seq<char>) -> Seq<char> {
    seq!['"'] + json_escaped(s) + seq!['"']
}

/// Whether `a` sorts before `b` by code points, first difference first,
/// a proper prefix first: the order of Rust's `String` (UTF-8 bytes keep
/// code point order), by which `serde_json` keeps object members.
pub open spec fn key_less(a: Seq<char>, b: Seq<char>) -> bool
    decreases a.len(),
{
    if a.len() == 0 {
        b.len() > 0
    } else if b.len() == 0 {
        false
    } else if a[0] != b[0] {
        (a[0] as u32) < (b[0] as u32)
    } else {
        key_less(a.drop_first(), b.drop_first())
    }
}

/// The compact text `serde_json::to_string` writes for `v`: `null`,
/// `true`, `false`, a number's text, a string literal, `[` elements `]`
/// and `{` `"key":value` members `}`, separated by commas.
pub open spec fn json_text(v: JsonValue) -> Seq<char>
    decreases v, 0int,
{
    match v {
        JsonValue::Null => "null"@,
        JsonValue::Bool(b) => if b {
            "true"@
        } else {
            "false"@
        },
        JsonValue::Number(n) => n.text@,
        JsonValue::Str(s) => json_quote(s@),
        JsonValue::Array(items) => seq!['['] + json_items_text(items@, items@.len() as int) + seq![']'],
        JsonValue::Object(fields) => seq!['{'] + json_fields_text(fields@, fields@.len() as int) + seq![
            '}',
        ],
    }
}

/// The texts of the first `n` elements, separated by commas.
pub open spec fn json_items_text(items: Seq<JsonValue>, n: int) -> Seq<char>
    decreases items, n,
{
    if n <= 0 || n > items.len() {
        Seq::empty()
    } else if n == 1 {
        json_text(items[0])
    } else {
        json_items_text(items, n - 1) + seq![','] + json_text(items[n - 1])
    }
}

/// The first `n` members as `"key":value`, separated by commas.
pub open spec fn json_fields_text(fields: Seq<(String, JsonValue)>, n: int) -> Seq<char>
    decreases fields, n,
{
    if n <= 0 || n > fields.len() {
        Seq::empty()
    } else if n == 1 {
        json_quote(fields[0].0@) + seq![':'] + json_text(fields[0].1)
    } else {
        json_fields_text(fields, n - 1) + seq![','] + json_quote(fields[n - 1].0@) + seq![':'] + json_text(
            fields[n - 1].1,
        )
    }
}

/// Whether `v` is written as `json_text` says: it holds no number (whose
/// printed form is `serde_json`'s own), and each object's keys are in
/// strictly ascending order (as `serde_json`'s map keeps them, each once).
pub open spec fn json_writable(v: JsonValue) -> bool
    decreases v, 0int,
{
    match v {
        JsonValue::Number(_) => false,
        JsonValue::Array(items) => json_items_writable(items@, items@.len() as int),
        JsonValue::Object(fields) => {
            &&& forall|i: int, j: int|
                0 <= i < j < fields@.len() ==> key_less(#[trigger] fields@[i].0@, #[trigger] fields@[j].0@)
            &&& json_fields_writable(fields@, fields@.len() as int)
        },
        _ => true,
    }
}

/// Whether the first `n` elements are writable.
pub open spec fn json_items_writable(items: Seq<JsonValue>, n: int) -> bool
    decreases items, n,
{
    if n <= 0 || n > items.len() {
        true
    } else {
        json_items_writable(items, n - 1) && json_writable(items[n - 1])
    }
}

/// Whether the values of the first `n` members are writable.
pub open spec fn json_fields_writable(fields: Seq<(String, JsonValue)>, n: int) -> bool
    decreases fields, n,
{
    if n <= 0 || n > fields.len() {
        true
    } else {
        json_fields_writable(fields, n - 1) && json_writable(fields[n - 1].1)
    }
}

/// `serde_json::to_string` of `v` converted to a `serde_json::Value`.
/// Writing a `Value` cannot fail. For a value without numbers and with
/// ascending keys its source writes exactly `json_text`: the compact
/// formatter, strings escaped by its escape table.
#[verifier::external_body]
pub(crate) fn json_to_string(v: &JsonValue) -> (r: String)
    requires
        json_writable(*v),
    ensures
        r@ == json_text(*v),
{
    serde_json::to_string(&v.to_serde()).unwrap_or_default()
}

/// `serde_json::to_string` of the value `serde_json::from_str` reads from
/// `text` (of `null` when it reads none). The result is named.
#[verifier::external_body]
pub fn compact_json(text: &str) -> (r: String)
    ensures
        r@ == json_compact_text(text@),
{
    let v = serde_json::from_str::<serde_json::Value>(text).unwrap_or(serde_json::Value::Null);
    serde_json::to_string(&v).unwrap_or_default()
}

/// Whether `s` holds no line feed.
pub open spec fn one_line(s: Seq<char>) -> bool {
    forall|i: int| 0 <= i < s.len() ==> #[trigger] s[i] != '\n'
}

/// A JSON string literal never holds a raw line feed: `serde_json` writes
/// it as `\n`.
pub proof fn lemma_quote_one_line(s: Seq<char>)
    ensures
        one_line(json_quote(s)),
    decreases s.len(),
{
    lemma_escaped_one_line(s);
    let q = json_quote(s);
    assert forall|i: int| 0 <= i < q.len() implies #[trigger] q[i] != '\n' by {
        if 0 < i < q.len() - 1 {
            assert(q[i] == json_escaped(s)[i - 1]);
        }
    }
}

proof fn lemma_escaped_one_line(s: Seq<char>)
    ensures
        one_line(json_escaped(s)),
    decreases s.len(),
{
    if s.len() > 0 {
        lemma_escaped_one_line(s.drop_first());
        let e = json_escape(s[0]);
        let rest = json_escaped(s.drop_first());
        let u = s[0] as u32;
        assert(one_line(e)) by {
            if u < 32 && u != 8 && u != 9 && u != 10 && u != 12 && u != 13 {
                assert(hex_digit((u / 16) as int) as u32 >= 48);
                assert(hex_digit((u % 16) as int) as u32 >= 48);
            }
        }
        assert forall|i: int| 0 <= i < json_escaped(s).len() implies #[trigger] json_escaped(s)[i]
            != '\n' by {
            if i < e.len() {
                assert(json_escaped(s)[i] == e[i]);
            } else {
                assert(json_escaped(s)[i] == rest[i - e.len()]);
            }
        }
    }
}

/// Text without line feeds stays so when joined.
pub proof fn lemma_concat_one_line(a: Seq<char>, b: Seq<char>)
    requires
        one_line(a),
        one_line(b),
    ensures
        one_line(a + b),
{
    assert forall|i: int| 0 <= i < (a + b).len() implies #[trigger] (a + b)[i] != '\n' by {
        if i < a.len() {
            assert((a + b)[i] == a[i]);
        } else {
            assert((a + b)[i] == b[i - a.len()]);
        }
    }
}

/// The value of a hexadecimal digit (either case).
pub open spec fn hex_value(c: char) -> int {
    let u = c as u32;
    if 48 <= u && u <= 57 {
        u - 48
    } else if 97 <= u && u <= 102 {
        u - 87
    } else if 65 <= u && u <= 70 {
        u - 55
    } else {
        0
    }
}

/// The character a one-letter escape `\e` stands for in JSON.
pub open spec fn unescape_char(e: char) -> char {
    if e == 'b' {
        8u32 as char
    } else if e == 't' {
        9u32 as char
    } else if e == 'n' {
        10u32 as char
    } else if e == 'f' {
        12u32 as char
    } else if e == 'r' {
        13u32 as char
    } else {
        e
    }
}

/// The characters JSON escapes in `t` stand for: `\uXXXX` by its four hex
/// digits, `\b \t \n \f \r` by those controls, `\` before any other
/// character by that character.
pub open spec fn json_unescaped(t: Seq<char>) -> Seq<char>
    decreases t.len(),
{
    if t.len() == 0 {
        Seq::empty()
    } else if t[0] == '\\' && t.len() >= 6 && t[1] == 'u' {
        seq![
            (hex_value(t[2]) * 4096 + hex_value(t[3]) * 256 + hex_value(t[4]) * 16 + hex_value(
                t[5],
            )) as char,
        ] + json_unescaped(t.skip(6))
    } else if t[0] == '\\' && t.len() >= 2 {
        seq![unescape_char(t[1])] + json_unescaped(t.skip(2))
    } else {
        seq![t[0]] + json_unescaped(t.drop_first())
    }
}

/// The text a JSON string literal stands for: its body between the quotes,
/// unescaped.
pub open spec fn json_unquote(q: Seq<char>) -> Seq<char> {
    json_unescaped(q.subrange(1, q.len() - 1))
}

proof fn lemma_unescape_one(c: char, rest: Seq<char>)
    ensures
        json_unescaped(json_escape(c) + rest) == seq![c] + json_unescaped(rest),
{
    let t = json_escape(c) + rest;
    let e = json_escape(c);
    let u = c as u32;
    if e.len() == 6 {
        assert(t.skip(6) =~= rest);
        let hi = (u / 16) as int;
        let lo = (u % 16) as int;
        assert(hex_value(hex_digit(hi)) == hi);
        assert(hex_value(hex_digit(lo)) == lo);
        assert(hex_value('0') == 0);
        assert(hi * 16 + lo == u);
        assert(((u as int) as char) == c);
    } else if e.len() == 2 {
        assert(t.skip(2) =~= rest);
        if u == 8 {
            assert(8u32 as char == c);
        } else if u == 9 {
            assert(9u32 as char == c);
        } else if u == 10 {
            assert(10u32 as char == c);
        } else if u == 12 {
            assert(12u32 as char == c);
        } else if u == 13 {
            assert(13u32 as char == c);
        }
    } else {
        assert(t.drop_first() =~= rest);
    }
}

proof fn lemma_unescape_escaped(s: Seq<char>)
    ensures
        json_unescaped(json_escaped(s)) == s,
    decreases s.len(),
{
    if s.len() > 0 {
        lemma_unescape_escaped(s.drop_first());
        lemma_unescape_one(s[0], json_escaped(s.drop_first()));
        assert(seq![s[0]] + s.drop_first() =~= s);
    } else {
        assert(json_escaped(s) =~= Seq::<char>::empty());
    }
}

/// A JSON string literal as `serde_json` writes it reads back as the text
/// it was written for.
pub proof fn lemma_quote_reads_back(s: Seq<char>)
    ensures
        json_unquote(json_quote(s)) == s,
{
    lemma_unescape_escaped(s);
    let q = json_quote(s);
    assert(q.subrange(1, q.len() - 1) =~= json_escaped(s));
}

// ── Reading values ───────────────────────────────────────────────────────

/// The value of the first member named `key` among `fields`.
pub open spec fn field_value(fields: Seq<(String, JsonValue)>, key: Seq<char>) -> Option<JsonValue>
    decreases fields.len(),
{
    if fields.len() == 0 {
        None
    } else if fields[0].0@ == key {
        Some(fields[0].1)
    } else {
        field_value(fields.drop_first(), key)
    }
}

/// `v[key]` when `v` is an object holding `key` (`serde_json::Value::get`).
pub open spec fn member(v: JsonValue, key: Seq<char>) -> Option<JsonValue> {
    match v {
        JsonValue::Object(fields) => field_value(fields@, key),
        _ => None,
    }
}

/// The text of a string value.
pub open spec fn str_value(o: Option<JsonValue>) -> Option<Seq<char>> {
    match o {
        Some(JsonValue::Str(s)) => Some(s@),
        _ => None,
    }
}

/// The elements of an array value.
pub open spec fn array_value(o: Option<JsonValue>) -> Option<Seq<JsonValue>> {
    match o {
        Some(JsonValue::Array(a)) => Some(a@),
        _ => None,
    }
}

/// A number value that is a non-negative integer fitting in `u64`.
pub open spec fn u64_value(o: Option<JsonValue>) -> Option<u64> {
    match o {
        Some(JsonValue::Number(n)) => n.as_u64,
        _ => None,
    }
}

/// The canonical text of a number value.
pub open spec fn number_text(o: Option<JsonValue>) -> Option<Seq<char>> {
    match o {
        Some(JsonValue::Number(n)) => Some(n.text@),
        _ => None,
    }
}

/// The text of the string member `key` of `v`.
pub open spec fn member_str(v: JsonValue, key: Seq<char>) -> Option<Seq<char>> {
    str_value(member(v, key))
}

/// `o`'s content, or `d` when there is none.
pub open spec fn or_text(o: Option<Seq<char>>, d: Seq<char>) -> Seq<char> {
    match o {
        Some(s) => s,
        None => d,
    }
}

/// `v[key]`: the first member named `key` when `v` is an object.
pub fn get<'a>(v: &'a JsonValue, key: &str) -> (r: Option<&'a JsonValue>)
    ensures
        match r {
            Some(x) => member(*v, key@) == Some(*x),
            None => member(*v, key@) is None,
        },
{
    match v {
        JsonValue::Object(fields) => {
            let mut i: usize = 0;
            assert(fields@.skip(0) =~= fields@);
            while i < fields.len()
                invariant
                    *v == JsonValue::Object(*fields),
                    i <= fields@.len(),
                    field_value(fields@, key@) == field_value(fields@.skip(i as int), key@),
                decreases fields@.len() - i,
            {
                assert(fields@.skip(i as int).drop_first() =~= fields@.skip(i + 1));
                assert(fields@.skip(i as int)[0] == fields@[i as int]);
                if str_eq(fields[i].0.as_str(), key) {
                    assert(fields@[i as int].0@ == key@);
                    assert(field_value(fields@.skip(i as int), key@) == Some(fields@[i as int].1));
                    assert(member(*v, key@) == field_value(fields@, key@));
                    return Some(&fields[i].1);
                }
                i = i + 1;
            }
            None
        },
        _ => None,
    }
}

/// The string member `key` of `v`, copied.
pub fn get_str(v: &JsonValue, key: &str) -> (r: Option<String>)
    ensures
        match r {
            Some(s) => member_str(*v, key@) == Some(s@),
            None => member_str(*v, key@) is None,
        },
{
    match get(v, key) {
        Some(JsonValue::Str(s)) => Some(s.clone()),
        _ => None,
    }
}

/// Whether the string member `key` of `v` is exactly `expected`.
pub fn member_str_is(v: &JsonValue, key: &str, expected: &str) -> (r: bool)
    ensures
        r == (member_str(*v, key@) == Some(expected@)),
{
    match get(v, key) {
        Some(JsonValue::Str(s)) => str_eq(s.as_str(), expected),
        _ => false,
    }
}

/// The `u64` member `key` of `v`.
pub fn get_u64(v: &JsonValue, key: &str) -> (r: Option<u64>)
    ensures
        r == u64_value(member(*v, key@)),
{
    match get(v, key) {
        Some(JsonValue::Number(n)) => n.as_u64,
        _ => None,
    }
}

/// The canonical text of the number member `key` of `v`, copied.
pub fn get_number_text(v: &JsonValue, key: &str) -> (r: Option<String>)
    ensures
        match r {
            Some(s) => number_text(member(*v, key@)) == Some(s@),
            None => number_text(member(*v, key@)) is None,
        },
{
    match get(v, key) {
        Some(JsonValue::Number(n)) => Some(n.text.clone()),
        _ => None,
    }
}

/// The array member `key` of `v`.
pub fn get_array<'a>(v: &'a JsonValue, key: &str) -> (r: Option<&'a Vec<JsonValue>>)
    ensures
        match r {
            Some(a) => array_value(member(*v, key@)) == Some(a@),
            None => array_value(member(*v, key@)) is None,
        },
{
    match get(v, key) {
        Some(JsonValue::Array(a)) => Some(a),
        _ => None,
    }
}

} // verus!
