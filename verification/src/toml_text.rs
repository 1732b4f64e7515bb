//! TOML as the `toml` crate reads and writes it.
//!
//! A parsed document is carried as an opaque `toml::Value`. What such a value
//! holds is given a name here, and the functions of `toml` that the library
//! calls are described over that name. Those descriptions are trusted, not
//! proved.

use vstd::prelude::*;
use crate::settings::{texts_of, vars_of, EnvVar};

verus! {

/// `toml::Value`, any TOML value. Nothing inside it is visible here.
#[verifier::external_type_specification]
#[verifier::external_body]
pub struct ExTomlValue(toml::Value);

/// `toml::de::Error`, the failure of a parse. Nothing inside it is visible
/// here.
#[verifier::external_type_specification]
#[verifier::external_body]
pub struct ExTomlError(toml::de::Error);

/// What a TOML value is: one of the seven kinds of TOML, with the characters
/// of a string and the entries of a table.
pub enum TomlShape {
    Text(Seq<char>),
    Integer,
    Float,
    Boolean,
    Datetime,
    Array,
    Table(Map<Seq<char>, toml::Value>),
}

/// What `toml::from_str` reads from `text` as a `toml::Value`: the document
/// as a table, or the error with which the parser rejects the text.
pub uninterp spec fn toml_document(text: Seq<char>) -> Result<toml::Value, toml::de::Error>;

/// What `value` holds: which variant of `toml::Value` it is, and what that
/// variant carries.
pub uninterp spec fn toml_shape(value: toml::Value) -> TomlShape;

/// The entry of `value` under `key`, where `value` is a table that has one.
pub open spec fn toml_member(value: toml::Value, key: Seq<char>) -> Option<toml::Value> {
    match toml_shape(value) {
        TomlShape::Table(entries) => if entries.dom().contains(key) {
            Some(entries[key])
        } else {
            None
        },
        _ => None,
    }
}

/// The characters of `value`, where it is a string.
pub open spec fn toml_text(value: toml::Value) -> Option<Seq<char>> {
    match toml_shape(value) {
        TomlShape::Text(text) => Some(text),
        _ => None,
    }
}

/// The message of a parse error: what its `Display` writes.
pub uninterp spec fn toml_error_message(error: toml::de::Error) -> Seq<char>;

/// The TOML text of a value: what `Display` of `toml::Value` writes for it.
pub uninterp spec fn toml_literal(value: TomlLiteralView) -> Seq<char>;

/// A value to be written as TOML text: a string, a list of strings, or a
/// table from names to strings.
pub enum TomlLiteral<'a> {
    Text(&'a str),
    List(&'a Vec<String>),
    Table(&'a Vec<EnvVar>),
}

/// What a value to be written holds.
pub enum TomlLiteralView {
    Text(Seq<char>),
    List(Seq<Seq<char>>),
    Table(Seq<(Seq<char>, Seq<char>)>),
}

impl<'a> View for TomlLiteral<'a> {
    type V = TomlLiteralView;

    open spec fn view(&self) -> TomlLiteralView {
        match self {
            TomlLiteral::Text(text) => TomlLiteralView::Text(text@),
            TomlLiteral::List(items) => TomlLiteralView::List(texts_of(items@)),
            TomlLiteral::Table(vars) => TomlLiteralView::Table(vars_of(vars@)),
        }
    }
}

/// Calls `toml::from_str` for a `toml::Value`. The parser reads the whole of
/// `text` as one document and returns on every input. The contract only
/// names its result.
#[verifier::external_body]
pub(crate) fn parse_toml(text: &str) -> (parsed: Result<toml::Value, toml::de::Error>)
    ensures
        parsed == toml_document(text@),
{
    toml::from_str::<toml::Value>(text)
}

/// Calls `toml::Value::get` with a string index: the entry under `key` where
/// `value` is a table that has one, and `None` where it is no table or has no
/// such entry.
#[verifier::external_body]
pub(crate) fn entry<'a>(value: &'a toml::Value, key: &str) -> (found: Option<&'a toml::Value>)
    ensures
        match found {
            Some(inner) => toml_member(*value, key@) == Some(*inner),
            None => toml_member(*value, key@) is None,
        },
{
    value.get(key)
}

/// Calls `toml::Value::as_str`: the text where `value` is a string, and
/// `None` otherwise.
#[verifier::external_body]
pub(crate) fn entry_text<'a>(value: &'a toml::Value) -> (text: Option<&'a str>)
    ensures
        match text {
            Some(characters) => toml_shape(*value) == TomlShape::Text(characters@),
            None => !(toml_shape(*value) is Text),
        },
{
    value.as_str()
}

/// Writes a parse error with its `Display`. The contract only names the
/// text.
#[verifier::external_body]
pub(crate) fn error_message(error: &toml::de::Error) -> (message: String)
    ensures
        message@ == toml_error_message(*error),
{
    error.to_string()
}

/// Builds the `toml::Value` that `value` describes and writes it with its
/// `Display`: a basic string, an array of strings, or an inline table whose
/// values are strings. Writing such a value cannot fail. The contract only
/// names the text.
#[verifier::external_body]
pub(crate) fn write_literal(value: &TomlLiteral<'_>) -> (text: String)
    ensures
        text@ == toml_literal(value@),
{
    let outside = match value {
        TomlLiteral::Text(text) => toml::Value::String(text.to_string()),
        TomlLiteral::List(items) => toml::Value::Array(
            items.iter().cloned().map(toml::Value::String).collect(),
        ),
        TomlLiteral::Table(vars) => toml::Value::Table(
            vars.iter().map(|var| (var.name.clone(), toml::Value::String(var.value.clone()))).collect(),
        ),
    };
    outside.to_string()
}

} // verus!
