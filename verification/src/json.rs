//! The structured records of the child's output, as `serde_json` reads them.
//!
//! A parsed record is carried as an opaque `serde_json::Value`. What such a
//! value holds is given a name here, and the functions of `serde_json` that
//! the decoder calls are described over that name. Those descriptions are
//! trusted, not proved.

use vstd::prelude::*;

verus! {

/// `serde_json::Value`, any JSON value. Nothing inside it is visible here.
#[verifier::external_type_specification]
#[verifier::external_body]
pub struct ExJsonValue(serde_json::Value);

/// `serde_json::Error`, the failure of a parse. Nothing inside it is visible
/// here.
#[verifier::external_type_specification]
#[verifier::external_body]
pub struct ExJsonError(serde_json::Error);

/// What a JSON value is: one of the six kinds of JSON, with the truth value
/// of a boolean, the characters of a string and the members of an object.
pub enum JsonShape {
    Null,
    Bool(bool),
    Number,
    Text(Seq<char>),
    Array,
    Object(Map<Seq<char>, serde_json::Value>),
}

/// The value that `serde_json::from_str` reads from `text`, or `None` where
/// it rejects the text.
pub uninterp spec fn json_document(text: Seq<char>) -> Option<serde_json::Value>;

/// What `value` holds: which variant of `serde_json::Value` it is, and what
/// that variant carries.
pub uninterp spec fn json_shape(value: serde_json::Value) -> JsonShape;

/// The member of `value` under `key`, where `value` is an object that has
/// one.
pub open spec fn json_member(value: serde_json::Value, key: Seq<char>) -> Option<
    serde_json::Value,
> {
    match json_shape(value) {
        JsonShape::Object(members) => if members.dom().contains(key) {
            Some(members[key])
        } else {
            None
        },
        _ => None,
    }
}

/// The characters of `value`, where it is a string.
pub open spec fn json_text(value: serde_json::Value) -> Option<Seq<char>> {
    match json_shape(value) {
        JsonShape::Text(text) => Some(text),
        _ => None,
    }
}

/// The truth value of `value`, where it is a boolean.
pub open spec fn json_flag(value: serde_json::Value) -> Option<bool> {
    match json_shape(value) {
        JsonShape::Bool(flag) => Some(flag),
        _ => None,
    }
}

/// Calls `serde_json::from_str` for a `Value`. The parser reads the whole of
/// `text` as one JSON value and fails on anything else; it returns on every
/// input. The contract only names its result.
#[verifier::external_body]
pub(crate) fn parse_json(text: &str) -> (parsed: Result<serde_json::Value, serde_json::Error>)
    ensures
        match parsed {
            Ok(value) => json_document(text@) == Some(value),
            Err(_) => json_document(text@) is None,
        },
{
    serde_json::from_str::<serde_json::Value>(text)
}

/// Calls `serde_json::Value::get` with a string index: the member under `key`
/// where `value` is an object that has one, and `None` where it is no object
/// or has no such member.
#[verifier::external_body]
pub(crate) fn member<'a>(value: &'a serde_json::Value, key: &str) -> (found: Option<
    &'a serde_json::Value,
>)
    ensures
        match found {
            Some(inner) => json_member(*value, key@) == Some(*inner),
            None => json_member(*value, key@) is None,
        },
{
    value.get(key)
}

/// Calls `serde_json::Value::as_str`: the text where `value` is a string,
/// and `None` otherwise.
#[verifier::external_body]
pub(crate) fn as_text<'a>(value: &'a serde_json::Value) -> (text: Option<&'a str>)
    ensures
        match text {
            Some(characters) => json_shape(*value) == JsonShape::Text(characters@),
            None => !(json_shape(*value) is Text),
        },
{
    value.as_str()
}

/// Calls `serde_json::Value::as_bool`: the truth value where `value` is a
/// boolean, and `None` otherwise.
#[verifier::external_body]
pub(crate) fn as_flag(value: &serde_json::Value) -> (flag: Option<bool>)
    ensures
        match flag {
            Some(truth) => json_shape(*value) == JsonShape::Bool(truth),
            None => !(json_shape(*value) is Bool),
        },
{
    value.as_bool()
}

/// `Clone::clone` of `serde_json::Value`, which is derived: the copy equals
/// the value that it was made from.
pub assume_specification[ <serde_json::Value as Clone>::clone ](value: &serde_json::Value) -> (copy:
    serde_json::Value)
    ensures
        copy == *value,
;

} // verus!
