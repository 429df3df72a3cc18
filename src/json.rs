//! JSON values as plain data, and the trusted bridges to `serde_json` and
//! `chrono` that produce them.
use vstd::prelude::*;
use serde_json::Value;

verus! {

/// A JSON number, as `serde_json` keeps it: a non-negative integer, a negative
/// integer, or a floating-point value given by its IEEE-754 bit pattern.
#[derive(Clone, Copy, Debug, PartialEq, Eq, Structural)]
pub enum JsonNumber {
    PosInt(u64),
    NegInt(i64),
    Float(u64),
}

/// A point in time, in UTC: whole seconds since the Unix epoch and the
/// nanoseconds past that second.
#[derive(Clone, Copy, Debug, PartialEq, Eq, Structural)]
pub struct Timestamp {
    pub secs: i64,
    pub nanos: u32,
}

/// A parsed JSON document. Object members keep the order in which the parser
/// hands them out; their keys are distinct.
#[derive(Debug)]
pub enum JsonValue {
    Null,
    Bool(bool),
    Number(JsonNumber),
    Str(String),
    Array(Vec<JsonValue>),
    Object(Vec<(String, JsonValue)>),
}

/// What `serde_json` reads from a text: `None` where the text is not one JSON
/// document (surrounding whitespace aside).
pub uninterp spec fn json_of(text: Seq<char>) -> Option<JsonValue>;

/// The tree of plain values that a `serde_json::Value` holds.
pub uninterp spec fn json_model(v: serde_json::Value) -> JsonValue;

/// The UTC instant that `chrono` reads from an RFC 3339 text, if it reads one.
pub uninterp spec fn time_of(text: Seq<char>) -> Option<Timestamp>;

#[verifier::external_type_specification]
#[verifier::external_body]
pub struct ExJsonTree(serde_json::Value);

/// Relies on `serde_json::from_str::<serde_json::Value>`: it succeeds exactly
/// on the texts that hold one JSON document, and the document it returns is
/// the one that text holds.
#[verifier::external_body]
fn parse_value(text: &str) -> (r: Option<serde_json::Value>)
    ensures
        r is None <==> json_of(text@) is None,
        r matches Some(v) ==> json_of(text@) == Some(json_model(v)),
{
    serde_json::from_str::<serde_json::Value>(text).ok()
}

/// Relies on the variants of `serde_json::Value`, on `Number::as_u64`,
/// `Number::as_i64` and `Number::as_f64`, and on `Map::into_iter`, which
/// hands out each member once: it moves the document into plain values,
/// member by member and element by element.
#[verifier::external_body]
fn tree_of(v: Value) -> (r: JsonValue)
    ensures
        r == json_model(v),
{
    match v {
        Value::Null => JsonValue::Null,
        Value::Bool(b) => JsonValue::Bool(b),
        Value::Number(n) => JsonValue::Number(match (n.as_u64(), n.as_i64()) {
            (Some(u), _) => JsonNumber::PosInt(u),
            (None, Some(i)) => JsonNumber::NegInt(i),
            (None, None) => JsonNumber::Float(n.as_f64().unwrap_or_default().to_bits()),
        }),
        Value::String(s) => JsonValue::Str(s),
        Value::Array(a) => JsonValue::Array(a.into_iter().map(tree_of).collect()),
        Value::Object(m) => JsonValue::Object(m.into_iter().map(|(k, x)| (k, tree_of(x))).collect()),
    }
}

/// Parses one JSON document; `None` where the text holds none.
pub fn parse_json(text: &str) -> (r: Option<JsonValue>)
    ensures
        r == json_of(text@),
{
    match parse_value(text) {
        Some(v) => Some(tree_of(v)),
        None => None,
    }
}

/// Relies on `<chrono::DateTime<chrono::Utc> as FromStr>::from_str` (relaxed
/// RFC 3339, the form `chrono` also deserialises), and on `timestamp` and
/// `timestamp_subsec_nanos` of the result.
#[verifier::external_body]
fn parse_time(text: &str) -> (r: Option<Timestamp>)
    ensures
        r == time_of(text@),
{
    match text.parse::<chrono::DateTime<chrono::Utc>>() {
        Ok(t) => Some(Timestamp { secs: t.timestamp(), nanos: t.timestamp_subsec_nanos() }),
        Err(_) => None,
    }
}


/// What a member of an object gives a field of a response: nothing (the
/// member is missing or `null`), a value of the field's type, or a value of
/// another type.
///
/// Numbers follow one policy: a real-valued field takes any number and keeps
/// it as sent; an integer field takes only a non-negative integer within its
/// range, so `3.0` or `-1` is of a wrong type for it.
#[derive(Debug)]
pub enum Slot<T> {
    Absent,
    Given(T),
    Invalid,
}

/// The value of the first member named `key`.
pub open spec fn member(m: Seq<(String, JsonValue)>, key: Seq<char>) -> Option<JsonValue>
    decreases m.len(),
{
    if m.len() == 0 {
        None
    } else if m[0].0@ == key {
        Some(m[0].1)
    } else {
        member(m.drop_first(), key)
    }
}

/// An object with no member named `k` gives no value for `k`.
pub proof fn member_missing(m: Seq<(String, JsonValue)>, k: Seq<char>)
    requires
        forall|i: int| 0 <= i < m.len() ==> (#[trigger] m[i].0@) != k,
    ensures
        member(m, k) is None,
    decreases m.len(),
{
    if m.len() > 0 {
        assert forall|i: int| 0 <= i < m.drop_first().len() implies (
        #[trigger] m.drop_first()[i].0@) != k by {
            assert(m.drop_first()[i] == m[i + 1]);
        }
        member_missing(m.drop_first(), k);
    }
}

/// A field that holds any number.
pub open spec fn real_slot(v: Option<JsonValue>) -> Slot<JsonNumber> {
    match v {
        None | Some(JsonValue::Null) => Slot::Absent,
        Some(JsonValue::Number(n)) => Slot::Given(n),
        _ => Slot::Invalid,
    }
}

/// A field that holds an unsigned integer no larger than `max`; a number with
/// a fraction or a sign does not fit one.
pub open spec fn uint_slot(v: Option<JsonValue>, max: u64) -> Slot<u64> {
    match v {
        None | Some(JsonValue::Null) => Slot::Absent,
        Some(JsonValue::Number(JsonNumber::PosInt(n))) => if n <= max {
            Slot::Given(n)
        } else {
            Slot::Invalid
        },
        _ => Slot::Invalid,
    }
}

/// A field that holds a string.
pub open spec fn text_slot(v: Option<JsonValue>) -> Slot<String> {
    match v {
        None | Some(JsonValue::Null) => Slot::Absent,
        Some(JsonValue::Str(s)) => Slot::Given(s),
        _ => Slot::Invalid,
    }
}

/// A field that holds a boolean.
pub open spec fn flag_slot(v: Option<JsonValue>) -> Slot<bool> {
    match v {
        None | Some(JsonValue::Null) => Slot::Absent,
        Some(JsonValue::Bool(b)) => Slot::Given(b),
        _ => Slot::Invalid,
    }
}

/// A field that holds a timestamp, written as an RFC 3339 string.
pub open spec fn time_slot(v: Option<JsonValue>) -> Slot<Timestamp> {
    match v {
        None | Some(JsonValue::Null) => Slot::Absent,
        Some(JsonValue::Str(s)) => match time_of(s@) {
            Some(t) => Slot::Given(t),
            None => Slot::Invalid,
        },
        _ => Slot::Invalid,
    }
}

/// A field of a strict shape that must be there: `None` where the shape
/// fails.
pub open spec fn required<T>(s: Slot<T>) -> Option<T> {
    match s {
        Slot::Given(x) => Some(x),
        _ => None,
    }
}

/// A field of a strict shape that may be missing: the outer `None` where a
/// value of another type makes the shape fail.
pub open spec fn optional<T>(s: Slot<T>) -> Option<Option<T>> {
    match s {
        Slot::Absent => Some(None),
        Slot::Given(x) => Some(Some(x)),
        Slot::Invalid => None,
    }
}

/// A field of a lenient shape: a value of another type counts as missing.
pub open spec fn lenient<T>(s: Slot<T>) -> Option<T> {
    match s {
        Slot::Given(x) => Some(x),
        _ => None,
    }
}

pub fn take_required<T>(s: Slot<T>) -> (r: Option<T>)
    ensures
        r == required(s),
{
    match s {
        Slot::Given(x) => Some(x),
        _ => None,
    }
}

pub fn take_optional<T>(s: Slot<T>) -> (r: Option<Option<T>>)
    ensures
        r == optional(s),
{
    match s {
        Slot::Absent => Some(None),
        Slot::Given(x) => Some(Some(x)),
        Slot::Invalid => None,
    }
}

pub fn take_lenient<T>(s: Slot<T>) -> (r: Option<T>)
    ensures
        r == lenient(s),
{
    match s {
        Slot::Given(x) => Some(x),
        _ => None,
    }
}

pub fn is_given<T>(s: &Slot<T>) -> (r: bool)
    ensures
        r == (*s is Given),
{
    match s {
        Slot::Given(_) => true,
        _ => false,
    }
}

pub fn is_absent<T>(s: &Slot<T>) -> (r: bool)
    ensures
        r == (*s is Absent),
{
    match s {
        Slot::Absent => true,
        _ => false,
    }
}

pub fn is_valid<T>(s: &Slot<T>) -> (r: bool)
    ensures
        r == !(*s is Invalid),
{
    match s {
        Slot::Invalid => false,
        _ => true,
    }
}

/// The value of a field that is known to be there.
pub fn take_given<T>(s: Slot<T>) -> (r: T)
    requires
        s is Given,
    ensures
        r == s->Given_0,
{
    match s {
        Slot::Given(x) => x,
        _ => unreached(),
    }
}

/// Whether a key reads as the given name.
pub fn key_is(k: &String, name: &str) -> (r: bool)
    ensures
        r == (k@ == name@),
{
    let owned = name.to_owned();
    *k == owned
}

/// The position of the first member named `key`, if there is one.
pub fn find_member(m: &Vec<(String, JsonValue)>, key: &str) -> (r: Option<usize>)
    ensures
        r is None ==> member(m@, key@) is None,
        r matches Some(i) ==> i < m@.len() && member(m@, key@) == Some(m@[i as int].1),
{
    let mut i: usize = 0;
    assert(m@.subrange(0, m@.len() as int) =~= m@);
    while i < m.len()
        invariant
            i <= m@.len(),
            member(m@, key@) == member(m@.subrange(i as int, m@.len() as int), key@),
        decreases m@.len() - i,
    {
        let ghost rest = m@.subrange(i as int, m@.len() as int);
        assert(rest.drop_first() =~= m@.subrange(i + 1, m@.len() as int));
        if key_is(&m[i].0, key) {
            return Some(i);
        }
        i = i + 1;
    }
    None
}

pub fn read_real(m: &Vec<(String, JsonValue)>, key: &str) -> (r: Slot<JsonNumber>)
    ensures
        r == real_slot(member(m@, key@)),
{
    match find_member(m, key) {
        None => Slot::Absent,
        Some(i) => match &m[i].1 {
            JsonValue::Null => Slot::Absent,
            JsonValue::Number(n) => Slot::Given(*n),
            _ => Slot::Invalid,
        },
    }
}

pub fn read_uint(m: &Vec<(String, JsonValue)>, key: &str, max: u64) -> (r: Slot<u64>)
    ensures
        r == uint_slot(member(m@, key@), max),
{
    match find_member(m, key) {
        None => Slot::Absent,
        Some(i) => match &m[i].1 {
            JsonValue::Null => Slot::Absent,
            JsonValue::Number(JsonNumber::PosInt(n)) => if *n <= max {
                Slot::Given(*n)
            } else {
                Slot::Invalid
            },
            _ => Slot::Invalid,
        },
    }
}

pub fn read_text(m: &Vec<(String, JsonValue)>, key: &str) -> (r: Slot<String>)
    ensures
        r == text_slot(member(m@, key@)),
{
    match find_member(m, key) {
        None => Slot::Absent,
        Some(i) => match &m[i].1 {
            JsonValue::Null => Slot::Absent,
            JsonValue::Str(s) => Slot::Given(s.clone()),
            _ => Slot::Invalid,
        },
    }
}

pub fn read_flag(m: &Vec<(String, JsonValue)>, key: &str) -> (r: Slot<bool>)
    ensures
        r == flag_slot(member(m@, key@)),
{
    match find_member(m, key) {
        None => Slot::Absent,
        Some(i) => match &m[i].1 {
            JsonValue::Null => Slot::Absent,
            JsonValue::Bool(b) => Slot::Given(*b),
            _ => Slot::Invalid,
        },
    }
}

pub fn read_time(m: &Vec<(String, JsonValue)>, key: &str) -> (r: Slot<Timestamp>)
    ensures
        r == time_slot(member(m@, key@)),
{
    match find_member(m, key) {
        None => Slot::Absent,
        Some(i) => match &m[i].1 {
            JsonValue::Null => Slot::Absent,
            JsonValue::Str(s) => match parse_time(s.as_str()) {
                Some(t) => Slot::Given(t),
                None => Slot::Invalid,
            },
            _ => Slot::Invalid,
        },
    }
}

} // verus!
