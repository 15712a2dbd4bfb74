//! A JSON document as the parsers read it.
//!
//! The document is produced from the wire text elsewhere (a JSON reader turns
//! the bytes into this tree); here it is only read.  Numbers keep what the
//! readers ask of them: the integer value when there is one, the IEEE-754 bits
//! of the floating value, and the canonical text; strings keep the bits of
//! the double they read as, when they read as one.

use vstd::prelude::*;
use crate::text::str_eq;

verus! {

/// A JSON number, as the parsers read it.
#[derive(Debug)]
pub struct JsonNumber {
    /// The value as an `i64`, when the number is an integer in range.
    pub as_i64: Option<i64>,
    /// The IEEE-754 bits of the value as an `f64`, when it has one.
    pub as_f64_bits: Option<u64>,
    /// When the number counts milliseconds: `(value * 1e6) as i64`, the same
    /// instant in nanoseconds, computed in floating point (absent when the
    /// number has no `f64` value).
    pub millis_as_nanos: Option<i64>,
    /// The canonical decimal text of the number.
    pub text: String,
}

/// A JSON string.
#[derive(Debug)]
pub struct JsonString {
    /// The string itself.
    pub text: String,
    /// When the text is a floating-point literal, the IEEE-754 bits of the
    /// double it reads as (`str::parse` for doubles); absent otherwise.
    pub float_bits: Option<u64>,
}

/// A JSON array with its compact text.
#[derive(Debug)]
pub struct JsonArray {
    pub items: Vec<JsonValue>,
    /// The compact serialisation of the whole array.
    pub text: String,
}

/// A JSON object: its members in order, with their keys distinct, and its
/// compact text.
#[derive(Debug)]
pub struct JsonObject {
    pub entries: Vec<(String, JsonValue)>,
    /// The compact serialisation of the whole object.
    pub text: String,
}

/// A JSON value.
#[derive(Debug)]
pub enum JsonValue {
    Null,
    Bool(bool),
    Number(JsonNumber),
    Str(JsonString),
    Array(JsonArray),
    Object(JsonObject),
}

/// Forgets the reference in an optional reference.
pub open spec fn deref_opt<T>(r: Option<&T>) -> Option<T> {
    match r {
        Some(x) => Some(*x),
        None => None,
    }
}

/// `a`, or `b` when `a` is absent (`Option::or_else`).
pub open spec fn or_opt<T>(a: Option<T>, b: Option<T>) -> Option<T> {
    if a is Some {
        a
    } else {
        b
    }
}

/// The value of the first member named `key`.
pub open spec fn entries_get(es: Seq<(String, JsonValue)>, key: Seq<char>) -> Option<JsonValue>
    decreases es.len(),
{
    if es.len() == 0 {
        None
    } else if es[0].0@ == key {
        Some(es[0].1)
    } else {
        entries_get(es.drop_first(), key)
    }
}

/// `Value::get` with a string key: the member of an object, absent on other values.
pub open spec fn spec_get(v: JsonValue, key: Seq<char>) -> Option<JsonValue> {
    match v {
        JsonValue::Object(o) => entries_get(o.entries@, key),
        _ => None,
    }
}

/// `Value::as_str`.
pub open spec fn spec_as_str(v: Option<JsonValue>) -> Option<Seq<char>> {
    match v {
        Some(JsonValue::Str(s)) => Some(s.text@),
        _ => None,
    }
}

/// `Value::as_i64`.
pub open spec fn spec_as_i64(v: Option<JsonValue>) -> Option<i64> {
    match v {
        Some(JsonValue::Number(n)) => n.as_i64,
        _ => None,
    }
}

/// `Value::as_f64`, as bits.
pub open spec fn spec_as_f64_bits(v: Option<JsonValue>) -> Option<u64> {
    match v {
        Some(JsonValue::Number(n)) => n.as_f64_bits,
        _ => None,
    }
}

/// `Value::as_object`: the members.
pub open spec fn spec_as_object(v: Option<JsonValue>) -> Option<Seq<(String, JsonValue)>> {
    match v {
        Some(JsonValue::Object(o)) => Some(o.entries@),
        _ => None,
    }
}

/// `Value::as_array`: the items.
pub open spec fn spec_as_array(v: Option<JsonValue>) -> Option<Seq<JsonValue>> {
    match v {
        Some(JsonValue::Array(a)) => Some(a.items@),
        _ => None,
    }
}

/// The value of the first member named `key` (`Map::get`).
pub fn entries_lookup<'a>(es: &'a Vec<(String, JsonValue)>, key: &str) -> (r: Option<&'a JsonValue>)
    ensures
        deref_opt(r) == entries_get(es@, key@),
{
    let mut i: usize = 0;
    assert(es@.skip(0) =~= es@);
    while i < es.len()
        invariant
            i <= es.len(),
            entries_get(es@, key@) == entries_get(es@.skip(i as int), key@),
        decreases es.len() - i,
    {
        assert(es@.skip(i as int).drop_first() =~= es@.skip(i + 1));
        if str_eq(es[i].0.as_str(), key) {
            return Some(&es[i].1);
        }
        i = i + 1;
    }
    assert(es@.skip(i as int).len() == 0);
    None
}

/// The member `key` of an object value (`Value::get`).
pub fn get<'a>(v: &'a JsonValue, key: &str) -> (r: Option<&'a JsonValue>)
    ensures
        deref_opt(r) == spec_get(*v, key@),
{
    match v {
        JsonValue::Object(o) => entries_lookup(&o.entries, key),
        _ => None,
    }
}

/// `Value::as_str`.
pub fn as_str<'a>(v: Option<&'a JsonValue>) -> (r: Option<&'a String>)
    ensures
        match r {
            Some(s) => spec_as_str(deref_opt(v)) == Some(s@),
            None => spec_as_str(deref_opt(v)) is None,
        },
{
    match v {
        Some(JsonValue::Str(s)) => Some(&s.text),
        _ => None,
    }
}

/// `Value::as_i64`.
pub fn as_i64(v: Option<&JsonValue>) -> (r: Option<i64>)
    ensures
        r == spec_as_i64(deref_opt(v)),
{
    match v {
        Some(JsonValue::Number(n)) => n.as_i64,
        _ => None,
    }
}

/// `Value::as_f64`, as bits.
pub fn as_f64_bits(v: Option<&JsonValue>) -> (r: Option<u64>)
    ensures
        r == spec_as_f64_bits(deref_opt(v)),
{
    match v {
        Some(JsonValue::Number(n)) => n.as_f64_bits,
        _ => None,
    }
}

/// `Value::as_object`.
pub fn as_object<'a>(v: Option<&'a JsonValue>) -> (r: Option<&'a Vec<(String, JsonValue)>>)
    ensures
        match r {
            Some(es) => spec_as_object(deref_opt(v)) == Some(es@),
            None => spec_as_object(deref_opt(v)) is None,
        },
{
    match v {
        Some(JsonValue::Object(o)) => Some(&o.entries),
        _ => None,
    }
}

/// `Value::as_array`.
pub fn as_array<'a>(v: Option<&'a JsonValue>) -> (r: Option<&'a Vec<JsonValue>>)
    ensures
        match r {
            Some(items) => spec_as_array(deref_opt(v)) == Some(items@),
            None => spec_as_array(deref_opt(v)) is None,
        },
{
    match v {
        Some(JsonValue::Array(a)) => Some(&a.items),
        _ => None,
    }
}

} // verus!
