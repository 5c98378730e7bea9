//! A JSON document model, its compact text form (as serde_json writes it),
//! and the lookups the protocol code performs on it.

use vstd::prelude::*;
use crate::text::{all_digits, chars_of, digits_to_u64, digits_value, is_digit, push_char, push_chars};

verus! {

/// A JSON value. `Number` holds the number's text as serde_json writes it;
/// object entries are kept in map order.
#[derive(Debug)]
pub enum JsonValue {
    Null,
    Bool(bool),
    Number(String),
    Str(String),
    Array(Vec<JsonValue>),
    Object(Vec<(String, JsonValue)>),
}

/// The mathematical form of a [`JsonValue`].
pub ghost enum Json {
    Null,
    Bool(bool),
    Number(Seq<char>),
    Str(Seq<char>),
    Array(Seq<Json>),
    Object(Seq<(Seq<char>, Json)>),
}

pub open spec fn json_view(v: JsonValue) -> Json
    decreases v,
{
    match v {
        JsonValue::Null => Json::Null,
        JsonValue::Bool(b) => Json::Bool(b),
        JsonValue::Number(n) => Json::Number(n@),
        JsonValue::Str(s) => Json::Str(s@),
        JsonValue::Array(items) => Json::Array(items_view(items@)),
        JsonValue::Object(entries) => Json::Object(entries_view(entries@)),
    }
}

pub open spec fn items_view(items: Seq<JsonValue>) -> Seq<Json>
    decreases items,
{
    if items.len() == 0 {
        Seq::empty()
    } else {
        items_view(items.drop_last()).push(json_view(items.last()))
    }
}

pub open spec fn entries_view(entries: Seq<(String, JsonValue)>) -> Seq<(Seq<char>, Json)>
    decreases entries,
{
    if entries.len() == 0 {
        Seq::empty()
    } else {
        entries_view(entries.drop_last()).push((entries.last().0@, json_view(entries.last().1)))
    }
}

impl View for JsonValue {
    type V = Json;

    open spec fn view(&self) -> Json {
        json_view(*self)
    }
}

pub proof fn lemma_items_view(items: Seq<JsonValue>)
    ensures
        items_view(items).len() == items.len(),
        forall|i: int| 0 <= i < items.len() ==> #[trigger] items_view(items)[i] == json_view(items[i]),
    decreases items.len(),
{
    if items.len() > 0 {
        lemma_items_view(items.drop_last());
    }
}

pub proof fn lemma_entries_view(entries: Seq<(String, JsonValue)>)
    ensures
        entries_view(entries).len() == entries.len(),
        forall|i: int| 0 <= i < entries.len() ==> #[trigger] entries_view(entries)[i] == (
            entries[i].0@,
            json_view(entries[i].1),
        ),
    decreases entries.len(),
{
    if entries.len() > 0 {
        lemma_entries_view(entries.drop_last());
    }
}

// ---------------------------------------------------------------------
// Text form
// ---------------------------------------------------------------------

/// The lowercase hexadecimal digit for `d` (0..=15).
pub open spec fn hex_digit(d: nat) -> char {
    if d < 10 {
        ((d + 48) as u32) as char
    } else {
        ((d + 87) as u32) as char
    }
}

/// How one character is written inside a JSON string literal.
pub open spec fn escape_char(c: char) -> Seq<char> {
    if c == '"' {
        seq!['\\', '"']
    } else if c == '\\' {
        seq!['\\', '\\']
    } else if c == '\u{8}' {
        seq!['\\', 'b']
    } else if c == '\u{c}' {
        seq!['\\', 'f']
    } else if c == '\n' {
        seq!['\\', 'n']
    } else if c == '\r' {
        seq!['\\', 'r']
    } else if c == '\t' {
        seq!['\\', 't']
    } else if (c as u32) < 0x20 {
        seq!['\\', 'u', '0', '0', hex_digit(((c as u32) / 16) as nat), hex_digit(((c as u32) % 16) as nat)]
    } else {
        seq![c]
    }
}

/// The escaped body of a JSON string literal.
pub open spec fn escape_str(s: Seq<char>) -> Seq<char>
    decreases s.len(),
{
    if s.len() == 0 {
        Seq::empty()
    } else {
        escape_str(s.drop_last()) + escape_char(s.last())
    }
}

/// A JSON string literal for `s`.
pub open spec fn quoted(s: Seq<char>) -> Seq<char> {
    seq!['"'] + escape_str(s) + seq!['"']
}

/// The compact JSON text of a value.
pub open spec fn json_text(v: Json) -> Seq<char>
    decreases v,
{
    match v {
        Json::Null => "null"@,
        Json::Bool(b) => if b { "true"@ } else { "false"@ },
        Json::Number(n) => n,
        Json::Str(s) => quoted(s),
        Json::Array(items) => seq!['['] + items_text(items) + seq![']'],
        Json::Object(entries) => seq!['{'] + entries_text(entries) + seq!['}'],
    }
}

/// The comma-separated texts of array items.
pub open spec fn items_text(items: Seq<Json>) -> Seq<char>
    decreases items,
{
    if items.len() == 0 {
        Seq::empty()
    } else if items.len() == 1 {
        json_text(items[0])
    } else {
        items_text(items.drop_last()) + seq![','] + json_text(items.last())
    }
}

/// The text of one object entry, `"key":value`.
pub open spec fn entry_text(e: (Seq<char>, Json)) -> Seq<char>
    decreases e,
{
    quoted(e.0) + seq![':'] + json_text(e.1)
}

/// The comma-separated texts of object entries.
pub open spec fn entries_text(entries: Seq<(Seq<char>, Json)>) -> Seq<char>
    decreases entries,
{
    if entries.len() == 0 {
        Seq::empty()
    } else if entries.len() == 1 {
        entry_text(entries[0])
    } else {
        entries_text(entries.drop_last()) + seq![','] + entry_text(entries.last())
    }
}

fn hex_char(d: u32) -> (c: char)
    requires
        d < 16,
    ensures
        c == hex_digit(d as nat),
{
    if d < 10 {
        crate::text::ascii_char(d + 48)
    } else {
        crate::text::ascii_char(d + 87)
    }
}

/// Appends the escaped form of one character.
pub fn push_escaped_char(out: &mut String, c: char)
    ensures
        final(out)@ == old(out)@ + escape_char(c),
{
    let ghost o = old(out)@;
    let code = c as u32;
    if c == '"' {
        push_char(out, '\\');
        push_char(out, '"');
    } else if c == '\\' {
        push_char(out, '\\');
        push_char(out, '\\');
    } else if c == '\u{8}' {
        push_char(out, '\\');
        push_char(out, 'b');
    } else if c == '\u{c}' {
        push_char(out, '\\');
        push_char(out, 'f');
    } else if c == '\n' {
        push_char(out, '\\');
        push_char(out, 'n');
    } else if c == '\r' {
        push_char(out, '\\');
        push_char(out, 'r');
    } else if c == '\t' {
        push_char(out, '\\');
        push_char(out, 't');
    } else if code < 0x20 {
        push_char(out, '\\');
        push_char(out, 'u');
        push_char(out, '0');
        push_char(out, '0');
        push_char(out, hex_char(code / 16));
        push_char(out, hex_char(code % 16));
    } else {
        push_char(out, c);
    }
    assert(out@ =~= o + escape_char(c));
}

/// Appends a JSON string literal for `s`.
pub fn push_quoted(out: &mut String, s: &Vec<char>)
    ensures
        final(out)@ == old(out)@ + quoted(s@),
{
    let ghost o = old(out)@;
    push_char(out, '"');
    let mut i: usize = 0;
    while i < s.len()
        invariant
            i <= s.len(),
            out@ == o.push('"') + escape_str(s@.take(i as int)),
        decreases s.len() - i,
    {
        push_escaped_char(out, s[i]);
        assert(s@.take(i + 1).drop_last() =~= s@.take(i as int));
        i = i + 1;
    }
    assert(s@.take(s.len() as int) =~= s@);
    push_char(out, '"');
    assert(out@ =~= o + quoted(s@));
}

/// Appends the compact JSON text of `v`.
#[verifier::loop_isolation(false)]
pub fn push_json(out: &mut String, v: &JsonValue)
    ensures
        final(out)@ == old(out)@ + json_text(v@),
    decreases v,
{
    let ghost o = old(out)@;
    match v {
        JsonValue::Null => {
            proof { reveal_strlit("null"); }
            crate::text::push_str(out, "null");
        },
        JsonValue::Bool(b) => {
            proof {
                reveal_strlit("true");
                reveal_strlit("false");
            }
            if *b {
                crate::text::push_str(out, "true");
            } else {
                crate::text::push_str(out, "false");
            }
        },
        JsonValue::Number(n) => {
            crate::text::push_str(out, n.as_str());
        },
        JsonValue::Str(s) => {
            let cs = chars_of(s.as_str());
            push_quoted(out, &cs);
        },
        JsonValue::Array(items) => {
            push_char(out, '[');
            proof { lemma_items_view(items@); }
            let mut i: usize = 0;
            while i < items.len()
                invariant
                    i <= items.len(),
                    items_view(items@).len() == items.len(),
                    forall|j: int| 0 <= j < items.len() ==> #[trigger] items_view(items@)[j] == json_view(items@[j]),
                    out@ == o.push('[') + items_text(items_view(items@).take(i as int)),
                decreases items.len() - i,
            {
                let ghost before = out@;
                if i > 0 {
                    push_char(out, ',');
                }
                assert(decreases_to!(*v => *items));
                assert(decreases_to!(*items => items@));
                assert(decreases_to!(items@ => items@[i as int]));
                push_json(out, &items[i]);
                proof {
                    let t = items_view(items@).take(i + 1);
                    assert(t.drop_last() =~= items_view(items@).take(i as int));
                    assert(t.last() == json_view(items@[i as int]));
                    if i == 0 {
                        assert(items_text(items_view(items@).take(0)) =~= Seq::<char>::empty());
                    }
                }
                i = i + 1;
            }
            assert(items_view(items@).take(items.len() as int) =~= items_view(items@));
            push_char(out, ']');
        },
        JsonValue::Object(entries) => {
            push_char(out, '{');
            proof { lemma_entries_view(entries@); }
            let mut i: usize = 0;
            while i < entries.len()
                invariant
                    i <= entries.len(),
                    entries_view(entries@).len() == entries.len(),
                    forall|j: int| 0 <= j < entries.len() ==> #[trigger] entries_view(entries@)[j] == (entries@[j].0@, json_view(entries@[j].1)),
                    out@ == o.push('{') + entries_text(entries_view(entries@).take(i as int)),
                decreases entries.len() - i,
            {
                let ghost before = out@;
                if i > 0 {
                    push_char(out, ',');
                }
                let ghost mid = out@;
                let key = chars_of(entries[i].0.as_str());
                push_quoted(out, &key);
                push_char(out, ':');
                assert(decreases_to!(*v => *entries));
                assert(decreases_to!(*entries => entries@));
                assert(decreases_to!(entries@ => entries@[i as int]));
                assert(decreases_to!(entries@[i as int] => entries@[i as int].1));
                push_json(out, &entries[i].1);
                proof {
                    let e = (entries@[i as int].0@, json_view(entries@[i as int].1));
                    assert(out@ =~= mid + entry_text(e));
                    let t = entries_view(entries@).take(i + 1);
                    assert(t.drop_last() =~= entries_view(entries@).take(i as int));
                    assert(t.last() == (entries@[i as int].0@, json_view(entries@[i as int].1)));
                    if i == 0 {
                        assert(entries_text(entries_view(entries@).take(0)) =~= Seq::<char>::empty());
                    }
                }
                i = i + 1;
            }
            assert(entries_view(entries@).take(entries.len() as int) =~= entries_view(entries@));
            push_char(out, '}');
        },
    }
}

impl JsonValue {
    /// The compact JSON text of this value, as serde_json writes it.
    pub fn to_json_text(&self) -> (out: String)
        ensures
            out@ == json_text(self@),
    {
        let mut out = String::new();
        push_json(&mut out, self);
        assert(Seq::<char>::empty() + json_text(self@) =~= json_text(self@));
        out
    }
}


// ---------------------------------------------------------------------
// Lookups
// ---------------------------------------------------------------------

/// The value stored under `key` in object entries (the first entry with
/// that key).
pub open spec fn entries_lookup(entries: Seq<(Seq<char>, Json)>, key: Seq<char>) -> Option<Json>
    decreases entries.len(),
{
    if entries.len() == 0 {
        None
    } else if entries[0].0 == key {
        Some(entries[0].1)
    } else {
        entries_lookup(entries.drop_first(), key)
    }
}

/// `v[key]` when `v` is an object holding `key`.
pub open spec fn json_get(v: Json, key: Seq<char>) -> Option<Json> {
    match v {
        Json::Object(entries) => entries_lookup(entries, key),
        _ => None,
    }
}

/// The string held by `v`, if it is a string.
pub open spec fn json_str(v: Json) -> Option<Seq<char>> {
    match v {
        Json::Str(s) => Some(s),
        _ => None,
    }
}

/// The value of a non-negative integer number (serde_json `as_u64`).
pub open spec fn json_u64(v: Json) -> Option<nat> {
    match v {
        Json::Number(t) => if t.len() > 0 && all_digits(t) && digits_value(t) <= u64::MAX {
            Some(digits_value(t))
        } else {
            None
        },
        _ => None,
    }
}

/// The value of an integer number, signed or not.
pub open spec fn number_int(t: Seq<char>) -> Option<int> {
    if t.len() > 0 && all_digits(t) {
        Some(digits_value(t) as int)
    } else if t.len() > 1 && t[0] == '-' && all_digits(t.drop_first()) {
        Some(-(digits_value(t.drop_first()) as int))
    } else {
        None
    }
}

/// The number of entries of an object.
pub open spec fn json_object_len(v: Json) -> Option<nat> {
    match v {
        Json::Object(entries) => Some(entries.len()),
        _ => None,
    }
}

proof fn lemma_lookup_skip(entries: Seq<(Seq<char>, Json)>, key: Seq<char>, i: int)
    requires
        0 <= i <= entries.len(),
        forall|j: int| 0 <= j < i ==> entries[j].0 != key,
    ensures
        entries_lookup(entries, key) == entries_lookup(entries.subrange(i, entries.len() as int), key),
    decreases i,
{
    if i > 0 {
        let rest = entries.drop_first();
        assert forall|j: int| 0 <= j < i - 1 implies rest[j].0 != key by {
            assert(rest[j] == entries[j + 1]);
        }
        lemma_lookup_skip(rest, key, i - 1);
        assert(rest.subrange(i - 1, rest.len() as int) =~= entries.subrange(i, entries.len() as int));
    } else {
        assert(entries.subrange(0, entries.len() as int) =~= entries);
    }
}

/// Whether a string has the given characters.
fn key_is(k: &String, key: &Vec<char>) -> (r: bool)
    ensures
        r == (k@ == key@),
{
    let kc = chars_of(k.as_str());
    crate::text::seq_eq(&kc, key)
}

impl JsonValue {
    /// A JSON string value.
    pub fn string(s: &str) -> (v: JsonValue)
        ensures
            v@ == Json::Str(s@),
    {
        JsonValue::Str(s.to_owned())
    }

    /// `self[key]` when `self` is an object holding `key` (serde_json
    /// `Value::get`).
    #[verifier::loop_isolation(false)]
    pub fn get(&self, key: &str) -> (r: Option<&JsonValue>)
        ensures
            match r {
                Some(x) => json_get(self@, key@) == Some(x@),
                None => json_get(self@, key@) is None,
            },
    {
        match self {
            JsonValue::Object(entries) => {
                let kc = chars_of(key);
                proof { lemma_entries_view(entries@); }
                let ghost es = entries_view(entries@);
                let mut i: usize = 0;
                while i < entries.len()
                    invariant
                        i <= entries.len(),
                        es == entries_view(entries@),
                        es.len() == entries.len(),
                        forall|j: int| 0 <= j < entries.len() ==> #[trigger] es[j] == (entries@[j].0@, json_view(entries@[j].1)),
                        forall|j: int| 0 <= j < i ==> es[j].0 != kc@,
                        kc@ == key@,
                    decreases entries.len() - i,
                {
                    if key_is(&entries[i].0, &kc) {
                        proof {
                            lemma_lookup_skip(es, key@, i as int);
                            let rest = es.subrange(i as int, es.len() as int);
                            assert(rest[0] == es[i as int]);
                        }
                        return Some(&entries[i].1);
                    }
                    i = i + 1;
                }
                proof {
                    lemma_lookup_skip(es, key@, i as int);
                    assert(es.subrange(i as int, es.len() as int).len() == 0);
                }
                None
            },
            _ => None,
        }
    }

    /// The string held by this value, if it is a string.
    pub fn as_str(&self) -> (r: Option<&String>)
        ensures
            match r {
                Some(s) => json_str(self@) == Some(s@),
                None => json_str(self@) is None,
            },
    {
        match self {
            JsonValue::Str(s) => Some(s),
            _ => None,
        }
    }

    /// The value of a non-negative integer (serde_json `Value::as_u64`).
    #[verifier::loop_isolation(false)]
    pub fn as_u64(&self) -> (r: Option<u64>)
        ensures
            match r {
                Some(n) => json_u64(self@) == Some(n as nat),
                None => json_u64(self@) is None,
            },
    {
        match self {
            JsonValue::Number(t) => {
                let tc = chars_of(t.as_str());
                if tc.len() == 0 {
                    return None;
                }
                let mut i: usize = 0;
                while i < tc.len()
                    invariant
                        i <= tc.len(),
                        forall|j: int| 0 <= j < i ==> is_digit(tc@[j]),
                    decreases tc.len() - i,
                {
                    if !(tc[i] >= '0' && tc[i] <= '9') {
                        assert(!is_digit(tc@[i as int]));
                        return None;
                    }
                    i = i + 1;
                }
                assert(tc@.subrange(0, tc.len() as int) =~= tc@);
                digits_to_u64(&tc, 0, tc.len())
            },
            _ => None,
        }
    }

    /// The number of entries when this value is an object.
    pub fn object_len(&self) -> (r: Option<usize>)
        ensures
            match r {
                Some(n) => json_object_len(self@) == Some(n as nat),
                None => json_object_len(self@) is None,
            },
    {
        match self {
            JsonValue::Object(entries) => {
                proof { lemma_entries_view(entries@); }
                Some(entries.len())
            },
            _ => None,
        }
    }

    /// Whether this value is `null`.
    pub fn is_null(&self) -> (r: bool)
        ensures
            r == (self@ == Json::Null),
    {
        match self {
            JsonValue::Null => true,
            _ => false,
        }
    }

    /// An independent copy of this value.
    #[verifier::loop_isolation(false)]
    pub fn duplicate(&self) -> (r: JsonValue)
        ensures
            r@ == self@,
        decreases self,
    {
        match self {
            JsonValue::Null => JsonValue::Null,
            JsonValue::Bool(b) => JsonValue::Bool(*b),
            JsonValue::Number(n) => JsonValue::Number(n.clone()),
            JsonValue::Str(s) => JsonValue::Str(s.clone()),
            JsonValue::Array(items) => {
                let mut out: Vec<JsonValue> = Vec::new();
                let mut i: usize = 0;
                while i < items.len()
                    invariant
                        i <= items.len(),
                        items_view(out@) == items_view(items@.take(i as int)),
                    decreases items.len() - i,
                {
                    assert(decreases_to!(*self => *items));
                    assert(decreases_to!(*items => items@));
                    assert(decreases_to!(items@ => items@[i as int]));
                    let x = items[i].duplicate();
                    let ghost prev = out@;
                    out.push(x);
                    proof {
                        assert(out@.drop_last() =~= prev);
                        assert(items@.take(i + 1).drop_last() =~= items@.take(i as int));
                    }
                    i = i + 1;
                }
                assert(items@.take(items.len() as int) =~= items@);
                JsonValue::Array(out)
            },
            JsonValue::Object(entries) => {
                let mut out: Vec<(String, JsonValue)> = Vec::new();
                let mut i: usize = 0;
                while i < entries.len()
                    invariant
                        i <= entries.len(),
                        entries_view(out@) == entries_view(entries@.take(i as int)),
                    decreases entries.len() - i,
                {
                    assert(decreases_to!(*self => *entries));
                    assert(decreases_to!(*entries => entries@));
                    assert(decreases_to!(entries@ => entries@[i as int]));
                    assert(decreases_to!(entries@[i as int] => entries@[i as int].1));
                    let x = entries[i].1.duplicate();
                    let k = entries[i].0.clone();
                    let ghost prev = out@;
                    out.push((k, x));
                    proof {
                        assert(out@.drop_last() =~= prev);
                        assert(entries@.take(i + 1).drop_last() =~= entries@.take(i as int));
                    }
                    i = i + 1;
                }
                assert(entries@.take(entries.len() as int) =~= entries@);
                JsonValue::Object(out)
            },
        }
    }
}

/// Appends the entry `key: value` to object entries.
pub fn push_entry(entries: &mut Vec<(String, JsonValue)>, key: &str, value: JsonValue)
    ensures
        entries_view(final(entries)@) == entries_view(old(entries)@).push((key@, value@)),
{
    let ghost before = entries@;
    entries.push((key.to_owned(), value));
    proof {
        assert(entries@.drop_last() =~= before);
    }
}

/// The JSON number `n`.
pub fn number_u64(n: u64) -> (v: JsonValue)
    ensures
        v@ == Json::Number(crate::text::decimal(n as nat)),
{
    JsonValue::Number(crate::text::u64_to_string(n))
}

/// The JSON object with the single entry `key: value`.
pub fn object1(key: &str, value: JsonValue) -> (v: JsonValue)
    ensures
        v@ == Json::Object(seq![(key@, value@)]),
{
    let mut es: Vec<(String, JsonValue)> = Vec::new();
    push_entry(&mut es, key, value);
    proof {
        assert(entries_view(es@) =~= seq![(key@, value@)]);
    }
    JsonValue::Object(es)
}

/// The empty JSON object.
pub fn empty_object() -> (v: JsonValue)
    ensures
        v@ == Json::Object(Seq::empty()),
{
    let es: Vec<(String, JsonValue)> = Vec::new();
    proof {
        assert(entries_view(es@) =~= Seq::<(Seq<char>, Json)>::empty());
    }
    JsonValue::Object(es)
}

/// serde_json's dynamic JSON value.
#[verifier::external_type_specification]
#[verifier::external_body]
pub struct ExSerdeJsonValue(serde_json::Value);
/// Converts a serde_json value one for one into a [`JsonValue`].
#[verifier::external_body]
pub(crate) fn from_serde(v: &serde_json::Value) -> JsonValue {
    match v {
        serde_json::Value::Null => JsonValue::Null,
        serde_json::Value::Bool(b) => JsonValue::Bool(*b),
        serde_json::Value::Number(n) => JsonValue::Number(n.to_string()),
        serde_json::Value::String(s) => JsonValue::Str(s.clone()),
        serde_json::Value::Array(items) => JsonValue::Array(items.iter().map(from_serde).collect()),
        serde_json::Value::Object(map) => JsonValue::Object(map.iter().map(|(k, x)| (k.clone(), from_serde(x))).collect()),
    }
}

} // verus!
