//! A JSON value as the rule engine reads it.
//!
//! Rules carry free-form JSON in their condition values, action parameters and
//! options. The engine only ever asks such a value for a string, an integer, an
//! array or an object member, so the value is held here as plain data.
//! Floating-point numbers keep their IEEE-754 bit pattern, which makes the
//! round trip to and from a JSON document lossless.

use vstd::prelude::*;
use crate::text::str_eq;

verus! {

/// A JSON number, split the way a JSON parser stores it.
pub enum JsonNumber {
    /// A non-negative integer.
    PosInt(u64),
    /// A negative integer.
    NegInt(i64),
    /// A finite floating-point number, stored by its bit pattern.
    Float(u64),
}

/// A JSON value. An object is the list of its members, in document order;
/// the lookups below take the first member with a given key.
pub enum JsonValue {
    Null,
    Bool(bool),
    Number(JsonNumber),
    String(String),
    Array(Vec<JsonValue>),
    Object(Vec<(String, JsonValue)>),
}

/// The string held by `v`, if `v` is a string.
pub open spec fn json_str(v: JsonValue) -> Option<Seq<char>> {
    match v {
        JsonValue::String(s) => Some(s@),
        _ => None,
    }
}

/// `n` as an `i64`, if it is an integer that fits.
pub open spec fn number_i64(n: JsonNumber) -> Option<i64> {
    match n {
        JsonNumber::PosInt(k) => if k <= i64::MAX as u64 { Some(k as i64) } else { None },
        JsonNumber::NegInt(k) => Some(k),
        JsonNumber::Float(_) => None,
    }
}

/// `n` as a `u64`, if it is a non-negative integer.
pub open spec fn number_u64(n: JsonNumber) -> Option<u64> {
    match n {
        JsonNumber::PosInt(k) => Some(k),
        _ => None,
    }
}

/// `v` as an `i64`, if it is an integer number that fits.
pub open spec fn json_i64(v: JsonValue) -> Option<i64> {
    match v {
        JsonValue::Number(n) => number_i64(n),
        _ => None,
    }
}

/// `v` as a `u64`, if it is a non-negative integer number.
pub open spec fn json_u64(v: JsonValue) -> Option<u64> {
    match v {
        JsonValue::Number(n) => number_u64(n),
        _ => None,
    }
}

/// The value of the first member of `entries` whose key is `key`.
pub open spec fn entries_lookup(entries: Seq<(String, JsonValue)>, key: Seq<char>) -> Option<JsonValue>
    decreases entries.len(),
{
    if entries.len() == 0 {
        None
    } else if entries[0].0@ == key {
        Some(entries[0].1)
    } else {
        entries_lookup(entries.drop_first(), key)
    }
}

/// The member `key` of `v`, if `v` is an object that has it.
pub open spec fn json_get(v: JsonValue, key: Seq<char>) -> Option<JsonValue> {
    match v {
        JsonValue::Object(entries) => entries_lookup(entries@, key),
        _ => None,
    }
}

/// The elements of `v`, if `v` is an array.
pub open spec fn json_array(v: JsonValue) -> Option<Seq<JsonValue>> {
    match v {
        JsonValue::Array(items) => Some(items@),
        _ => None,
    }
}

impl JsonNumber {
    /// The number as an `i64`, if it is an integer that fits.
    pub fn as_i64(&self) -> (r: Option<i64>)
        ensures
            r == number_i64(*self),
    {
        match self {
            JsonNumber::PosInt(k) => if *k <= 0x7fff_ffff_ffff_ffffu64 { Some(*k as i64) } else { None },
            JsonNumber::NegInt(k) => Some(*k),
            JsonNumber::Float(_) => None,
        }
    }

    /// The number as a `u64`, if it is a non-negative integer.
    pub fn as_u64(&self) -> (r: Option<u64>)
        ensures
            r == number_u64(*self),
    {
        match self {
            JsonNumber::PosInt(k) => Some(*k),
            _ => None,
        }
    }
}

impl JsonValue {
    /// The string held by the value, if it is a string.
    pub fn as_str(&self) -> (r: Option<&str>)
        ensures
            r is Some == json_str(*self) is Some,
            r matches Some(s) ==> json_str(*self) == Some(s@),
    {
        match self {
            JsonValue::String(s) => Some(s.as_str()),
            _ => None,
        }
    }

    /// The value as an `i64`, if it is an integer number that fits.
    pub fn as_i64(&self) -> (r: Option<i64>)
        ensures
            r == json_i64(*self),
    {
        match self {
            JsonValue::Number(n) => n.as_i64(),
            _ => None,
        }
    }

    /// The value as a `u64`, if it is a non-negative integer number.
    pub fn as_u64(&self) -> (r: Option<u64>)
        ensures
            r == json_u64(*self),
    {
        match self {
            JsonValue::Number(n) => n.as_u64(),
            _ => None,
        }
    }

    /// The elements of the value, if it is an array.
    pub fn as_array(&self) -> (r: Option<&Vec<JsonValue>>)
        ensures
            r is Some == json_array(*self) is Some,
            r matches Some(items) ==> json_array(*self) == Some(items@),
    {
        match self {
            JsonValue::Array(items) => Some(items),
            _ => None,
        }
    }

    /// The member `key` of the value, if it is an object that has one.
    pub fn get(&self, key: &str) -> (r: Option<&JsonValue>)
        ensures
            r is Some == json_get(*self, key@) is Some,
            r matches Some(v) ==> json_get(*self, key@) == Some(*v),
    {
        match self {
            JsonValue::Object(entries) => {
                let mut i: usize = 0;
                assert(entries@.skip(0) =~= entries@);
                while i < entries.len()
                    invariant
                        i <= entries@.len(),
                        json_get(*self, key@) == entries_lookup(entries@, key@),
                        entries_lookup(entries@, key@) == entries_lookup(entries@.skip(i as int), key@),
                    decreases entries@.len() - i,
                {
                    assert(entries@.skip(i as int).drop_first() =~= entries@.skip(i + 1));
                    assert(entries@.skip(i as int)[0] == entries@[i as int]);
                    if str_eq(entries[i].0.as_str(), key) {
                        return Some(&entries[i].1);
                    }
                    i = i + 1;
                }
                None
            },
            _ => None,
        }
    }
}

} // verus!
