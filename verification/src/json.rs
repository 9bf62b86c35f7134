//! JSON documents as `serde_json` holds them, and the calls into
//! `serde_json` that the library makes.
//!
//! A `serde_json::Value` is opaque to the verifier. Its content is named by
//! [`json_of`], a mathematical tree, and every call below is described over
//! that tree. None of these descriptions is proved: they restate what
//! `serde_json` documents. The same holds of the one call into `std` that
//! stands here, `str::to_lowercase`, which the discovery applies to the
//! text of a document.

use vstd::prelude::*;
use serde_json::Value;
use crate::error::JsonFailure;

verus! {

#[verifier::external_type_specification]
#[verifier::external_body]
pub struct ExValue(serde_json::Value);

/// What a JSON document holds.
///
/// An integer is any number written without fraction or exponent that fits
/// in 64 bits, signed or unsigned; every other number is a `Float`, kept by
/// the bits of its double.
pub enum Json {
    Null,
    Bool(bool),
    Int(int),
    Float(u64),
    Text(Seq<char>),
    Array(Seq<Json>),
    Object(Map<Seq<char>, Json>),
}

impl Json {
    /// The member `key` of an object; `None` for a missing key and for
    /// anything that is not an object.
    pub open spec fn get(self, key: Seq<char>) -> Option<Json> {
        match self {
            Json::Object(members) => if members.contains_key(key) {
                Some(members[key])
            } else {
                None
            },
            _ => None,
        }
    }

    /// The object that has the members of `self` and `key` bound to `value`.
    /// Anything that is not an object counts as the empty object.
    pub open spec fn with(self, key: Seq<char>, value: Json) -> Json {
        match self {
            Json::Object(members) => Json::Object(members.insert(key, value)),
            _ => Json::Object(Map::empty().insert(key, value)),
        }
    }

    /// The value as an unsigned 64-bit integer, if it is one.
    pub open spec fn as_u64(self) -> Option<u64> {
        match self {
            Json::Int(n) => if 0 <= n <= u64::MAX {
                Some(n as u64)
            } else {
                None
            },
            _ => None,
        }
    }

    /// The value as a signed 64-bit integer, if it is one.
    pub open spec fn as_i64(self) -> Option<i64> {
        match self {
            Json::Int(n) => if i64::MIN <= n <= i64::MAX {
                Some(n as i64)
            } else {
                None
            },
            _ => None,
        }
    }

    /// The characters of a string value.
    pub open spec fn as_text(self) -> Option<Seq<char>> {
        match self {
            Json::Text(s) => Some(s),
            _ => None,
        }
    }

    /// The elements of an array value.
    pub open spec fn as_array(self) -> Option<Seq<Json>> {
        match self {
            Json::Array(items) => Some(items),
            _ => None,
        }
    }
}

/// The empty JSON object.
pub open spec fn empty_object() -> Json {
    Json::Object(Map::empty())
}

/// The content of a `serde_json::Value`.
pub uninterp spec fn json_of(value: Value) -> Json;

/// The document that `serde_json` reads from `bytes`; `None` where it
/// reports an error.
pub uninterp spec fn json_decoding(bytes: Seq<u8>) -> Option<Json>;

/// The compact serialization that `serde_json` writes for a document.
pub uninterp spec fn json_encoding(document: Json) -> Seq<u8>;

/// The compact text that `serde_json` displays for a document.
pub uninterp spec fn json_text(document: Json) -> Seq<char>;

/// The lower-case form that `str::to_lowercase` gives a text.
pub uninterp spec fn lowercased(text: Seq<char>) -> Seq<char>;

/// `serde_json::from_slice` at `Value`: parses one JSON document from
/// `bytes`. Trusted: the outcome is the named decoding of the bytes; the
/// error of `serde_json` comes back as its text.
#[verifier::external_body]
pub(crate) fn parse(bytes: &[u8]) -> (r: Result<Value, JsonFailure>)
    ensures
        match r {
            Ok(value) => json_decoding(bytes@) == Some(json_of(value)),
            Err(failure) => json_decoding(bytes@) is None && failure is Malformed,
        },
{
    serde_json::from_slice::<Value>(bytes).map_err(|e| JsonFailure::Malformed(e.to_string()))
}

/// `serde_json::to_vec` on a `Value`. Trusted: the call succeeds, and the
/// bytes are the named encoding of the document.
///
/// Success is claimed because nothing on the way of a `Value` can fail:
/// its `Serialize` only hands its parts on, the keys of an object are
/// strings, a number that is not finite cannot be held, and every error of
/// the serializer comes from its writer, which here is a `Vec<u8>`.
#[verifier::external_body]
pub(crate) fn to_bytes(value: &Value) -> (r: Result<Vec<u8>, JsonFailure>)
    ensures
        match r {
            Ok(bytes) => bytes@ == json_encoding(json_of(*value)),
            Err(_) => false,
        },
{
    serde_json::to_vec(value).map_err(|e| JsonFailure::Malformed(e.to_string()))
}

/// `Value`'s `Display`, through `to_string`. Trusted: the text is the named
/// compact text of the document.
#[verifier::external_body]
pub(crate) fn to_text(value: &Value) -> (text: String)
    ensures
        text@ == json_text(json_of(*value)),
{
    value.to_string()
}

/// `Value::get` with a string key. Trusted: it finds the member of an
/// object and nothing else.
#[verifier::external_body]
pub(crate) fn member<'a>(value: &'a Value, key: &str) -> (r: Option<&'a Value>)
    ensures
        match r {
            Some(found) => json_of(*value).get(key@) == Some(json_of(*found)),
            None => json_of(*value).get(key@) is None,
        },
{
    value.get(key)
}

/// `Value::as_u64`. Trusted: the number, where the value is a non-negative
/// integer.
#[verifier::external_body]
pub(crate) fn as_u64(value: &Value) -> (r: Option<u64>)
    ensures
        r == json_of(*value).as_u64(),
{
    value.as_u64()
}

/// `Value::as_i64`. Trusted: the number, where the value is an integer in
/// the range of `i64`.
#[verifier::external_body]
pub(crate) fn as_i64(value: &Value) -> (r: Option<i64>)
    ensures
        r == json_of(*value).as_i64(),
{
    value.as_i64()
}

/// `Value::as_str`. Trusted: the characters, where the value is a string.
#[verifier::external_body]
pub(crate) fn as_str<'a>(value: &'a Value) -> (r: Option<&'a str>)
    ensures
        match r {
            Some(s) => json_of(*value).as_text() == Some(s@),
            None => json_of(*value).as_text() is None,
        },
{
    value.as_str()
}

/// `Value::as_array`. Trusted: the elements in order, where the value is an
/// array.
#[verifier::external_body]
pub(crate) fn as_array<'a>(value: &'a Value) -> (r: Option<&'a Vec<Value>>)
    ensures
        match r {
            Some(items) => json_of(*value).as_array() == Some(
                Seq::new(items@.len(), |i: int| json_of(items@[i])),
            ),
            None => json_of(*value).as_array() is None,
        },
{
    value.as_array()
}

/// `Value::is_object`. Trusted: whether the value is an object.
#[verifier::external_body]
pub(crate) fn is_object(value: &Value) -> (r: bool)
    ensures
        r == (json_of(*value) is Object),
{
    value.is_object()
}

/// `Value::is_null`. Trusted: whether the value is null.
#[verifier::external_body]
pub(crate) fn is_null(value: &Value) -> (r: bool)
    ensures
        r == (json_of(*value) is Null),
{
    value.is_null()
}

/// `Value::from` at `u64`. Trusted: an integer value with that number.
#[verifier::external_body]
pub(crate) fn from_u64(n: u64) -> (value: Value)
    ensures
        json_of(value) == Json::Int(n as int),
{
    Value::from(n)
}

/// `Value::from` at `bool`. Trusted: a boolean value with that truth.
#[verifier::external_body]
pub(crate) fn from_bool(b: bool) -> (value: Value)
    ensures
        json_of(value) == Json::Bool(b),
{
    Value::from(b)
}

/// `Value::from` at `&str`. Trusted: a string value with those characters.
#[verifier::external_body]
pub(crate) fn from_str(s: &str) -> (value: Value)
    ensures
        json_of(value) == Json::Text(s@),
{
    Value::from(s)
}

/// `Value::default`. Trusted: the null value.
#[verifier::external_body]
pub(crate) fn null() -> (value: Value)
    ensures
        json_of(value) == Json::Null,
{
    Value::default()
}

/// `serde_json::Map::new`, as a value. Trusted: the object without
/// members.
#[verifier::external_body]
pub(crate) fn new_object() -> (value: Value)
    ensures
        json_of(value) == empty_object(),
{
    Value::Object(serde_json::Map::new())
}

/// `Value`'s `IndexMut` with a string key, assigned to. Trusted: on an
/// object it binds `key` to `member` and keeps the other members. The call
/// panics on anything but an object or null, which `requires` leaves out.
#[verifier::external_body]
pub(crate) fn set_member(object: &mut Value, key: &str, member: Value)
    requires
        json_of(*old(object)) is Object,
    ensures
        json_of(*final(object)) == json_of(*old(object)).with(key@, json_of(member)),
{
    object[key] = member;
}

/// `Value::clone`. Trusted: the copy holds the same document.
pub assume_specification[ <Value as Clone>::clone ](value: &Value) -> (copy: Value)
    ensures
        json_of(copy) == json_of(*value),
;

/// `str::to_lowercase`. Trusted: the result is the named lower-case form.
#[verifier::external_body]
pub(crate) fn lowercase(text: &str) -> (lower: String)
    ensures
        lower@ == lowercased(text@),
{
    text.to_lowercase()
}

} // verus!
