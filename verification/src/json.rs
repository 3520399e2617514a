//! A minimal JSON tree: exactly the shapes the providers read. Parsing is
//! left to serde_json behind one trusted adapter; everything that inspects a
//! parsed tree is verified against this type.

use vstd::prelude::*;
use crate::strings::str_eq;

verus! {

/// A parsed JSON document. Numbers keep only what the providers read: an
/// unsigned value when the number is one, and an opaque marker otherwise
/// (negative, fractional or out-of-range numbers are never used as ASNs).
pub enum JsonValue {
    Null,
    Bool(bool),
    UInt(u64),
    NonUInt,
    Str(String),
    Array(Vec<JsonValue>),
    Object(Vec<(String, JsonValue)>),
}

/// The value under `key` in an object's pair list: the first pair whose key
/// has the characters of `key`, if any.
pub open spec fn obj_get(pairs: Seq<(String, JsonValue)>, key: Seq<char>) -> Option<JsonValue>
    decreases pairs.len(),
{
    if pairs.len() == 0 {
        None
    } else if pairs[0].0@ == key {
        Some(pairs[0].1)
    } else {
        obj_get(pairs.drop_first(), key)
    }
}

/// The value under `key` in `v`: `None` whenever `v` is not an object or has
/// no such member.
pub open spec fn json_get_spec(v: JsonValue, key: Seq<char>) -> Option<JsonValue> {
    match v {
        JsonValue::Object(pairs) => obj_get(pairs@, key),
        _ => None,
    }
}

impl JsonValue {
    /// Looks up `key` in this value, following `json_get_spec`.
    pub fn get<'a>(&'a self, key: &str) -> (r: Option<&'a JsonValue>)
        ensures
            match r {
                Some(x) => json_get_spec(*self, key@) == Some(*x),
                None => json_get_spec(*self, key@) is None,
            },
    {
        match self {
            JsonValue::Object(pairs) => {
                let n: usize = pairs.len();
                let mut i: usize = 0;
                proof {
                    assert(pairs@.subrange(0, n as int) =~= pairs@);
                }
                while i < n
                    invariant
                        n == pairs@.len(),
                        0 <= i <= n,
                        json_get_spec(*self, key@) == obj_get(pairs@, key@),
                        obj_get(pairs@, key@) == obj_get(
                            pairs@.subrange(i as int, n as int),
                            key@,
                        ),
                    decreases n - i,
                {
                    let ghost tail = pairs@.subrange(i as int, n as int);
                    if str_eq(pairs[i].0.as_str(), key) {
                        proof {
                            assert(tail[0] == pairs@[i as int]);
                            assert(obj_get(tail, key@) == Some(tail[0].1));
                        }
                        return Some(&pairs[i].1);
                    }
                    proof {
                        assert(tail.drop_first() =~= pairs@.subrange(i as int + 1, n as int));
                    }
                    i = i + 1;
                }
                proof {
                    assert(pairs@.subrange(n as int, n as int) =~= Seq::<
                        (String, JsonValue),
                    >::empty());
                }
                None
            },
            _ => None,
        }
    }
}

#[verifier::external_type_specification]
#[verifier::external_body]
pub struct ExSerdeJsonValue(serde_json::Value);

/// The JSON tree that `text` parses to, or `None` where serde_json rejects
/// the text (not valid JSON, or past its nesting limit). What a given text
/// parses to depends on the text alone; the tree itself is too large to
/// state directly, so it is only named here and applied by the contract of
/// `parse_json`.
pub uninterp spec fn parsed_json(text: Seq<char>) -> Option<JsonValue>;

/// Relies on serde_json::Value: rebuilds serde_json's tree in the library's
/// own JSON type, one variant arm each, with numbers narrowed through
/// serde_json::Number::as_u64.
#[verifier::external_body]
fn value_of_serde(v: &serde_json::Value) -> JsonValue {
    match v {
        serde_json::Value::Null => JsonValue::Null,
        serde_json::Value::Bool(b) => JsonValue::Bool(*b),
        serde_json::Value::Number(n) => n.as_u64().map_or(JsonValue::NonUInt, JsonValue::UInt),
        serde_json::Value::String(s) => JsonValue::Str(s.clone()),
        serde_json::Value::Array(a) => JsonValue::Array(a.iter().map(value_of_serde).collect()),
        serde_json::Value::Object(m) => JsonValue::Object(
            m.iter().map(|(k, val)| (k.clone(), value_of_serde(val))).collect(),
        ),
    }
}

/// Relies on serde_json::from_str: parses `text` as one JSON document,
/// returning the tree named by `parsed_json`, and `None` on whatever
/// serde_json rejects.
#[verifier::external_body]
pub fn parse_json(text: &str) -> (r: Option<JsonValue>)
    ensures
        r == parsed_json(text@),
{
    match serde_json::from_str::<serde_json::Value>(text) {
        Ok(v) => Some(value_of_serde(&v)),
        Err(_) => None,
    }
}

} // verus!
