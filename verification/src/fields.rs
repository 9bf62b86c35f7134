//! Reading the fields of a JSON object into plain values.
//!
//! A field is read strictly: a text field must hold a string and a number
//! field an integer that fits the type asked for. A field that is missing
//! or holds something else is a serialization error. Only an optional field
//! may be missing or null.

use vstd::prelude::*;
use vstd::string::StringExecFns;
use serde_json::Value;
use crate::error;
use crate::error::Result;
use crate::json;
use crate::json::{json_of, Json};

verus! {

/// The text of the string field `key`.
pub open spec fn text_at(document: Json, key: Seq<char>) -> Option<Seq<char>> {
    match document.get(key) {
        Some(field) => field.as_text(),
        None => None,
    }
}

/// The number of the unsigned integer field `key`.
pub open spec fn u64_at(document: Json, key: Seq<char>) -> Option<u64> {
    match document.get(key) {
        Some(field) => field.as_u64(),
        None => None,
    }
}

/// The number of the signed integer field `key`.
pub open spec fn i64_at(document: Json, key: Seq<char>) -> Option<i64> {
    match document.get(key) {
        Some(field) => field.as_i64(),
        None => None,
    }
}

/// The number of the field `key`, where it fits in 32 bits without sign.
pub open spec fn u32_at(document: Json, key: Seq<char>) -> Option<u32> {
    match u64_at(document, key) {
        Some(n) => if n <= u32::MAX {
            Some(n as u32)
        } else {
            None
        },
        None => None,
    }
}

/// The number of the field `key`, where it fits in 32 bits with sign.
pub open spec fn i32_at(document: Json, key: Seq<char>) -> Option<i32> {
    match i64_at(document, key) {
        Some(n) => if i32::MIN <= n <= i32::MAX {
            Some(n as i32)
        } else {
            None
        },
        None => None,
    }
}

/// The elements of the array field `key`.
pub open spec fn array_at(document: Json, key: Seq<char>) -> Option<Seq<Json>> {
    match document.get(key) {
        Some(field) => field.as_array(),
        None => None,
    }
}

/// The field `key`, or else the field `alias`.
pub open spec fn either(document: Json, key: Seq<char>, alias: Seq<char>) -> Seq<char> {
    if document.get(key) is Some {
        key
    } else {
        alias
    }
}

/// Whether the field `key` is missing or null.
pub open spec fn vacant(document: Json, key: Seq<char>) -> bool {
    match document.get(key) {
        Some(field) => field is Null,
        None => true,
    }
}

/// The object `{"<key>": <member>}`.
pub fn singleton(key: &str, member: Value) -> (value: Value)
    ensures
        json_of(value) == crate::json::empty_object().with(key@, json_of(member)),
{
    let mut value = json::new_object();
    json::set_member(&mut value, key, member);
    value
}

/// Whether the field `key` of `value` is missing or null.
pub fn is_vacant(value: &Value, key: &str) -> (r: bool)
    ensures
        r == vacant(json_of(*value), key@),
{
    match json::member(value, key) {
        Some(found) => json::is_null(found),
        None => true,
    }
}

/// The name under which a field that has an alias is found: `key` where
/// `value` has such a field, else `alias`.
pub fn key_or_alias<'a>(value: &Value, key: &'a str, alias: &'a str) -> (name: &'a str)
    ensures
        name@ == either(json_of(*value), key@, alias@),
{
    if json::member(value, key).is_some() {
        key
    } else {
        alias
    }
}

/// The field `key` of `value`, which must be there.
pub fn field<'a>(value: &'a Value, key: &str) -> (r: Result<&'a Value>)
    ensures
        match json_of(*value).get(key@) {
            Some(field) => r matches Ok(found) && json_of(*found) == field,
            None => r matches Err(e) && e.is_unexpected(),
        },
{
    match json::member(value, key) {
        Some(found) => Ok(found),
        None => Err(error::unexpected(key)),
    }
}

/// The string field `key` of `value`.
pub fn text_field(value: &Value, key: &str) -> (r: Result<String>)
    ensures
        match text_at(json_of(*value), key@) {
            Some(text) => r matches Ok(s) && s@ == text,
            None => r matches Err(e) && e.is_unexpected(),
        },
{
    match json::member(value, key) {
        Some(found) => match json::as_str(found) {
            Some(text) => Ok(String::from_str(text)),
            None => Err(error::unexpected(key)),
        },
        None => Err(error::unexpected(key)),
    }
}

/// The unsigned integer field `key` of `value`.
pub fn u64_field(value: &Value, key: &str) -> (r: Result<u64>)
    ensures
        match u64_at(json_of(*value), key@) {
            Some(number) => r matches Ok(n) && n == number,
            None => r matches Err(e) && e.is_unexpected(),
        },
{
    match json::member(value, key) {
        Some(found) => match json::as_u64(found) {
            Some(n) => Ok(n),
            None => Err(error::unexpected(key)),
        },
        None => Err(error::unexpected(key)),
    }
}

/// The signed integer field `key` of `value`.
pub fn i64_field(value: &Value, key: &str) -> (r: Result<i64>)
    ensures
        match i64_at(json_of(*value), key@) {
            Some(number) => r matches Ok(n) && n == number,
            None => r matches Err(e) && e.is_unexpected(),
        },
{
    match json::member(value, key) {
        Some(found) => match json::as_i64(found) {
            Some(n) => Ok(n),
            None => Err(error::unexpected(key)),
        },
        None => Err(error::unexpected(key)),
    }
}

/// The field `key` of `value` as an unsigned 32-bit integer.
pub fn u32_field(value: &Value, key: &str) -> (r: Result<u32>)
    ensures
        match u32_at(json_of(*value), key@) {
            Some(number) => r matches Ok(n) && n == number,
            None => r matches Err(e) && e.is_unexpected(),
        },
{
    match u64_field(value, key) {
        Ok(n) => if n <= 0xFFFF_FFFF {
            Ok(n as u32)
        } else {
            Err(error::unexpected(key))
        },
        Err(e) => Err(e),
    }
}

/// The field `key` of `value` as a signed 32-bit integer.
pub fn i32_field(value: &Value, key: &str) -> (r: Result<i32>)
    ensures
        match i32_at(json_of(*value), key@) {
            Some(number) => r matches Ok(n) && n == number,
            None => r matches Err(e) && e.is_unexpected(),
        },
{
    match i64_field(value, key) {
        Ok(n) => if -0x8000_0000 <= n && n <= 0x7FFF_FFFF {
            Ok(n as i32)
        } else {
            Err(error::unexpected(key))
        },
        Err(e) => Err(e),
    }
}

/// The array field `key` of `value`.
pub fn array_field<'a>(value: &'a Value, key: &str) -> (r: Result<&'a Vec<Value>>)
    ensures
        match array_at(json_of(*value), key@) {
            Some(items) => r matches Ok(found) && items == Seq::new(
                found@.len(),
                |i: int| json_of(found@[i]),
            ),
            None => r matches Err(e) && e.is_unexpected(),
        },
{
    match json::member(value, key) {
        Some(found) => match json::as_array(found) {
            Some(items) => Ok(items),
            None => Err(error::unexpected(key)),
        },
        None => Err(error::unexpected(key)),
    }
}

} // verus!
