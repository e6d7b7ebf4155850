//! JSON values as the protocol's events carry them, held as plain values,
//! and the lookups that the event handlers make in them.
use vstd::prelude::*;

use crate::keyed::str_eq;

verus! {

/// A JSON number: as the JSON library prints it, as a 64-bit integer when
/// it is one, and truncated towards zero to a 64-bit integer (saturating)
/// as the library's floating-point reading of it gives.
#[derive(Debug)]
pub struct JsonNumber {
    pub text: String,
    pub int: Option<i64>,
    pub truncated: i64,
}

/// A JSON array, with its compact JSON text.
#[derive(Debug)]
pub struct JsonArray {
    pub items: Vec<JsonValue>,
    pub text: String,
}

/// A JSON object: its members in order, with its compact JSON text.
#[derive(Debug)]
pub struct JsonObject {
    pub members: Vec<(String, JsonValue)>,
    pub text: String,
}

/// A JSON value.
#[derive(Debug)]
pub enum JsonValue {
    Null,
    Bool(bool),
    Number(JsonNumber),
    String(String),
    Array(JsonArray),
    Object(JsonObject),
}

/// The first member named `key`, among `ms`.
pub open spec fn member(ms: Seq<(String, JsonValue)>, key: Seq<char>) -> Option<JsonValue>
    decreases ms.len(),
{
    if ms.len() == 0 {
        None
    } else if ms[0].0@ == key {
        Some(ms[0].1)
    } else {
        member(ms.drop_first(), key)
    }
}

/// The member `key` of an object; nothing for any other value.
pub open spec fn field(v: JsonValue, key: Seq<char>) -> Option<JsonValue> {
    match v {
        JsonValue::Object(o) => member(o.members@, key),
        _ => None,
    }
}

/// The member `key` of a value that may be missing.
pub open spec fn field_of(v: Option<JsonValue>, key: Seq<char>) -> Option<JsonValue> {
    match v {
        Some(x) => field(x, key),
        None => None,
    }
}

/// The characters of a string value.
pub open spec fn str_of(v: Option<JsonValue>) -> Option<Seq<char>> {
    match v {
        Some(JsonValue::String(s)) => Some(s@),
        _ => None,
    }
}

/// The value of a boolean value.
pub open spec fn bool_of(v: Option<JsonValue>) -> Option<bool> {
    match v {
        Some(JsonValue::Bool(b)) => Some(b),
        _ => None,
    }
}

/// The value of a number that is a 64-bit integer.
pub open spec fn i64_of(v: Option<JsonValue>) -> Option<i64> {
    match v {
        Some(JsonValue::Number(n)) => n.int,
        _ => None,
    }
}

/// A number read as a floating-point value and cast to `u16`: truncated
/// towards zero and saturated to 0..=65535.
pub open spec fn u16_of(v: Option<JsonValue>) -> Option<u16> {
    match v {
        Some(JsonValue::Number(n)) => Some(saturate_u16(n.truncated as int)),
        _ => None,
    }
}

/// `x` clamped to the range of `u16`.
pub open spec fn saturate_u16(x: int) -> u16 {
    if x < 0 {
        0
    } else if x > 65535 {
        65535
    } else {
        x as u16
    }
}

/// The items of an array value.
pub open spec fn items_of(v: Option<JsonValue>) -> Option<Seq<JsonValue>> {
    match v {
        Some(JsonValue::Array(a)) => Some(a.items@),
        _ => None,
    }
}

/// A value as text: a string as it is, anything else as compact JSON text.
pub open spec fn value_text(v: JsonValue) -> Seq<char> {
    match v {
        JsonValue::Null => "null"@,
        JsonValue::Bool(b) => if b {
            "true"@
        } else {
            "false"@
        },
        JsonValue::Number(n) => n.text@,
        JsonValue::String(s) => s@,
        JsonValue::Array(a) => a.text@,
        JsonValue::Object(o) => o.text@,
    }
}

/// The member `key` of `v`, if `v` is an object that has one.
pub fn get<'a>(v: &'a JsonValue, key: &str) -> (r: Option<&'a JsonValue>)
    ensures
        match r {
            Some(x) => field(*v, key@) == Some(*x),
            None => field(*v, key@) is None,
        },
{
    match v {
        JsonValue::Object(o) => {
            let ms = &o.members;
            let mut i: usize = 0;
            proof {
                assert(ms@.skip(0) =~= ms@);
            }
            while i < ms.len()
                invariant
                    i <= ms.len(),
                    field(*v, key@) == member(ms@, key@),
                    member(ms@, key@) == member(ms@.skip(i as int), key@),
                decreases ms.len() - i,
            {
                proof {
                    assert(ms@.skip(i as int).drop_first() =~= ms@.skip(i + 1));
                    assert(ms@.skip(i as int)[0] == ms@[i as int]);
                }
                if str_eq(ms[i].0.as_str(), key) {
                    return Some(&ms[i].1);
                }
                i = i + 1;
            }
            None
        },
        _ => None,
    }
}

/// The member `key` of a value that may be missing.
pub fn get_opt<'a>(v: Option<&'a JsonValue>, key: &str) -> (r: Option<&'a JsonValue>)
    ensures
        match r {
            Some(x) => field_of(opt_val(v), key@) == Some(*x),
            None => field_of(opt_val(v), key@) is None,
        },
{
    match v {
        Some(x) => get(x, key),
        None => None,
    }
}

/// A value behind an optional reference.
pub open spec fn opt_val(v: Option<&JsonValue>) -> Option<JsonValue> {
    match v {
        Some(x) => Some(*x),
        None => None,
    }
}

/// The string held by a value, if it is a string.
pub fn as_str<'a>(v: Option<&'a JsonValue>) -> (r: Option<&'a String>)
    ensures
        match r {
            Some(s) => str_of(opt_val(v)) == Some(s@),
            None => str_of(opt_val(v)) is None,
        },
{
    match v {
        Some(JsonValue::String(s)) => Some(s),
        _ => None,
    }
}

/// The string held by a value, copied, if it is a string.
pub fn string_of(v: Option<&JsonValue>) -> (r: Option<String>)
    ensures
        match r {
            Some(s) => str_of(opt_val(v)) == Some(s@),
            None => str_of(opt_val(v)) is None,
        },
{
    match as_str(v) {
        Some(s) => Some(s.clone()),
        None => None,
    }
}

/// The boolean held by a value, if it is one.
pub fn as_bool(v: Option<&JsonValue>) -> (r: Option<bool>)
    ensures
        r == bool_of(opt_val(v)),
{
    match v {
        Some(JsonValue::Bool(b)) => Some(*b),
        _ => None,
    }
}

/// The number held by a value, if it is a 64-bit integer.
pub fn as_i64(v: Option<&JsonValue>) -> (r: Option<i64>)
    ensures
        r == i64_of(opt_val(v)),
{
    match v {
        Some(JsonValue::Number(n)) => n.int,
        _ => None,
    }
}

/// The number held by a value, as a `u16` the way a floating-point cast
/// gives it.
pub fn as_u16(v: Option<&JsonValue>) -> (r: Option<u16>)
    ensures
        r == u16_of(opt_val(v)),
{
    match v {
        Some(JsonValue::Number(n)) => {
            let t = n.truncated;
            if t < 0 {
                Some(0)
            } else if t > 65535 {
                Some(65535)
            } else {
                Some(t as u16)
            }
        },
        _ => None,
    }
}

/// The items of a value, if it is an array.
pub fn as_array<'a>(v: Option<&'a JsonValue>) -> (r: Option<&'a Vec<JsonValue>>)
    ensures
        match r {
            Some(a) => items_of(opt_val(v)) == Some(a@),
            None => items_of(opt_val(v)) is None,
        },
{
    match v {
        Some(JsonValue::Array(a)) => Some(&a.items),
        _ => None,
    }
}

/// A value as text: a string as it is, anything else as compact JSON text.
pub fn to_value_text(v: &JsonValue) -> (r: String)
    ensures
        r@ == value_text(*v),
{
    match v {
        JsonValue::Null => "null".to_owned(),
        JsonValue::Bool(b) => if *b {
            "true".to_owned()
        } else {
            "false".to_owned()
        },
        JsonValue::Number(n) => n.text.clone(),
        JsonValue::String(s) => s.clone(),
        JsonValue::Array(a) => a.text.clone(),
        JsonValue::Object(o) => o.text.clone(),
    }
}

} // verus!
