//! JSON values as the envelope logic sees them.
//!
//! The values themselves are `serde_json::Value`s, which stay opaque to the
//! verifier. What the rest of the crate may know about one is its model, a
//! [`Json`], and every function in this file that touches `serde_json` says in
//! its contract how the call relates to that model. Those contracts are taken
//! on trust; everything built on top of them is proved.

use serde_json::Error as JsonError;
use vstd::prelude::*;

verus! {

/// The JSON value type of `serde_json`, carried through as an opaque value.
#[verifier::external_type_specification]
#[verifier::external_body]
pub struct ExJsonValue(serde_json::Value);

/// The error type of `serde_json`, carried through as an opaque value.
#[verifier::external_type_specification]
#[verifier::external_body]
pub struct ExJsonError(JsonError);

/// The model of a JSON number. Two numbers have the same model exactly when
/// they are the same number in the same form: `1` and `1.0` differ, and so
/// do `0.0` and `-0.0`.
pub enum JsonNumber {
    /// A non-negative integer that fits 64 bits.
    Unsigned(u64),
    /// Any other number, negative, fractional or out of that range, by the
    /// text that it is written as.
    Other(Seq<char>),
}

/// The model of a JSON value.
pub enum Json {
    Null,
    Boolean(bool),
    Number(JsonNumber),
    Text(Seq<char>),
    Array(Seq<Json>),
    Object(Map<Seq<char>, Json>),
}

impl Json {
    /// The member stored under `key`, if this is an object that has one.
    pub open spec fn member(self, key: Seq<char>) -> Option<Json> {
        match self {
            Json::Object(members) => if members.dom().contains(key) {
                Some(members[key])
            } else {
                None
            },
            _ => None,
        }
    }

    /// The characters of this value, if it is a string.
    pub open spec fn text(self) -> Option<Seq<char>> {
        match self {
            Json::Text(s) => Some(s),
            _ => None,
        }
    }

    /// This value as a `u64`, if it is a non-negative integer that fits.
    pub open spec fn unsigned(self) -> Option<u64> {
        match self {
            Json::Number(JsonNumber::Unsigned(n)) => Some(n),
            _ => None,
        }
    }

    /// This object with `value` stored under `key`. `null` counts as the
    /// empty object; the other values are no objects and stay as they are.
    pub open spec fn with_member(self, key: Seq<char>, value: Json) -> Json {
        match self {
            Json::Object(members) => Json::Object(members.insert(key, value)),
            Json::Null => Json::Object(Map::empty().insert(key, value)),
            other => other,
        }
    }

}

/// What a `serde_json::Value` holds: `Null`, `Bool`, `String`, `Array` and
/// `Object` map to the variant of the same meaning, element by element and
/// member by member. A `Number` maps to `Unsigned(n)` where `Number::as_u64`
/// gives `n`; where it gives nothing, to `Other` with the text that the
/// number's `Display` prints, which is different for different numbers.
pub uninterp spec fn json_model(value: serde_json::Value) -> Json;

/// The model of the value that `serde_json::from_slice` reads from a text, or
/// `None` where it reports an error.
pub uninterp spec fn json_parsed(text: Seq<u8>) -> Option<Json>;

/// The text that `serde_json::to_vec` writes for a value, or `None` where it
/// reports an error.
pub uninterp spec fn json_written(value: serde_json::Value) -> Option<Seq<u8>>;

/// Calls `serde_json::from_slice` for a `Value`. The parser reads nothing but
/// the bytes it is given, so its outcome is a function of them: `Ok` with a
/// value whose model is `json_parsed` of the bytes, or `Err` where
/// `json_parsed` is `None`.
#[verifier::external_body]
pub(crate) fn parse_json(text: &[u8]) -> (r: Result<serde_json::Value, JsonError>)
    ensures
        match r {
            Ok(value) => json_parsed(text@) == Some(json_model(value)),
            Err(_) => json_parsed(text@) is None,
        },
{
    serde_json::from_slice::<serde_json::Value>(text)
}

/// Calls `Value::get` with a string index: the member under `key` when the
/// value is an object that has that key, and `None` for a missing key and for
/// every value that is not an object.
#[verifier::external_body]
pub(crate) fn json_member<'a>(value: &'a serde_json::Value, key: &str) -> (r: Option<
    &'a serde_json::Value,
>)
    ensures
        match r {
            Some(found) => json_model(*value).member(key@) == Some(json_model(*found)),
            None => json_model(*value).member(key@) is None,
        },
{
    value.get(key)
}

/// Calls `Value::as_str`: the string's characters when the value is a string,
/// `None` for every other value.
#[verifier::external_body]
pub(crate) fn json_as_text<'a>(value: &'a serde_json::Value) -> (r: Option<&'a str>)
    ensures
        match r {
            Some(s) => json_model(*value).text() == Some(s@),
            None => json_model(*value).text() is None,
        },
{
    value.as_str()
}

/// Calls `Value::as_u64`: the number when the value is a non-negative integer
/// that fits 64 bits, `None` for every other number and every other value.
#[verifier::external_body]
pub(crate) fn json_unsigned(value: &serde_json::Value) -> (r: Option<u64>)
    ensures
        r == json_model(*value).unsigned(),
{
    value.as_u64()
}

/// Calls `Value::is_null`: whether the value is JSON `null`.
#[verifier::external_body]
pub(crate) fn json_is_null(value: &serde_json::Value) -> (r: bool)
    ensures
        r == (json_model(*value) is Null),
{
    value.is_null()
}

/// Calls `Value::clone`, which copies the whole value: the copy is equal to
/// the original.
#[verifier::external_body]
pub(crate) fn json_clone(value: &serde_json::Value) -> (r: serde_json::Value)
    ensures
        r == *value,
{
    value.clone()
}

/// Makes `Value::Null`.
#[verifier::external_body]
pub(crate) fn json_null() -> (r: serde_json::Value)
    ensures
        json_model(r) == Json::Null,
{
    serde_json::Value::Null
}

/// Calls `Value::from` on a string slice: the string with those characters.
#[verifier::external_body]
pub(crate) fn json_from_text(text: &str) -> (r: serde_json::Value)
    ensures
        json_model(r) == Json::Text(text@),
{
    serde_json::Value::from(text)
}

/// Calls `Value::from` on a `u64`: the number that `Value::as_u64` reads
/// back as it is.
#[verifier::external_body]
pub(crate) fn json_from_unsigned(n: u64) -> (r: serde_json::Value)
    ensures
        json_model(r) == Json::Number(JsonNumber::Unsigned(n)),
{
    serde_json::Value::from(n)
}

/// Assigns through the index operator of `Value` with a string index: the
/// value is stored under the key, in place of what the key had. `null` is
/// taken for an empty object. On every other value that is no object the
/// operator panics, so such values are kept out.
#[verifier::external_body]
pub(crate) fn json_set_member(object: &mut serde_json::Value, key: &str, value: serde_json::Value)
    requires
        json_model(*old(object)) is Null || json_model(*old(object)) is Object,
    ensures
        json_model(*final(object)) == json_model(*old(object)).with_member(key@, json_model(value)),
{
    object[key] = value;
}

/// Calls `serde_json::to_vec` on a `Value`. What is written depends on the
/// value alone.
#[verifier::external_body]
pub(crate) fn json_write(value: &serde_json::Value) -> (r: Option<Vec<u8>>)
    ensures
        match r {
            Some(text) => json_written(*value) == Some(text@),
            None => json_written(*value) is None,
        },
{
    serde_json::to_vec(value).ok()
}

} // verus!
