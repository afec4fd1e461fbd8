//! JSON values as plain data, and what is said of a value that does not have
//! the expected form.

use serde::de::Unexpected;
use vstd::prelude::*;

use crate::text::{decimal, quoted_text, signed_decimal};

verus! {

/// A JSON value. Numbers are kept by the form they were read in; a number with
/// a fraction or an exponent is kept as it is printed.
#[derive(Debug)]
pub enum JsonValue {
    Null,
    Bool(bool),
    Unsigned(u64),
    Signed(i64),
    Float(String),
    Text(String),
    List(Vec<JsonValue>),
    Object(Vec<(String, JsonValue)>),
}

/// What a 32-bit count is called in messages.
pub const EXPECTED_U32: &'static str = "u32";

/// What a flag is called in messages.
pub const EXPECTED_BOOL: &'static str = "a boolean";

/// What the rollout options as a whole are called in messages.
pub const EXPECTED_OPTIONS: &'static str = "struct RolloutOptions";

/// What is expected of an array with too many elements.
pub const EXPECTED_SHORTER: &'static str = "fewer elements in array";

/// The expectations that messages speak of.
pub open spec fn known_expectation(expected: Seq<char>) -> bool {
    ||| expected == EXPECTED_U32@
    ||| expected == EXPECTED_BOOL@
    ||| expected == EXPECTED_OPTIONS@
    ||| expected == EXPECTED_SHORTER@
}

/// How a value is described where another was expected.
pub open spec fn found_text(value: JsonValue) -> Seq<char> {
    match value {
        JsonValue::Null => "null"@,
        JsonValue::Bool(b) => "boolean `"@ + (if b {
            "true"@
        } else {
            "false"@
        }) + "`"@,
        JsonValue::Unsigned(n) => "integer `"@ + decimal(n as nat) + "`"@,
        JsonValue::Signed(n) => "integer `"@ + signed_decimal(n as int) + "`"@,
        JsonValue::Float(shown) => "floating point `"@ + shown@ + "`"@,
        JsonValue::Text(text) => "string "@ + quoted_text(text@),
        JsonValue::List(_) => "sequence"@,
        JsonValue::Object(_) => "map"@,
    }
}

/// The complaint about a value of another type.
pub open spec fn invalid_type(found: JsonValue, expected: Seq<char>) -> Seq<char> {
    "invalid type: "@ + found_text(found) + ", expected "@ + expected
}

/// The complaint about a value of the right type that is out of bounds.
pub open spec fn invalid_value(found: JsonValue, expected: Seq<char>) -> Seq<char> {
    "invalid value: "@ + found_text(found) + ", expected "@ + expected
}

/// The complaint about a list of the wrong length.
pub open spec fn invalid_length(len: nat, expected: Seq<char>) -> Seq<char> {
    "invalid length "@ + decimal(len) + ", expected "@ + expected
}

/// The complaint about a field that was given before.
pub open spec fn duplicate_field(field: Seq<char>) -> Seq<char> {
    "duplicate field `"@ + field + "`"@
}

/// Names in backquotes, separated by commas.
pub open spec fn backquoted(names: Seq<&'static str>) -> Seq<char>
    decreases names.len(),
{
    if names.len() == 0 {
        Seq::empty()
    } else if names.len() == 1 {
        "`"@ + names[0]@ + "`"@
    } else {
        backquoted(names.drop_last()) + ", `"@ + names.last()@ + "`"@
    }
}

/// The complaint about a field that is none of `names`.
pub open spec fn unknown_field(field: Seq<char>, names: Seq<&'static str>) -> Seq<char> {
    "unknown field `"@ + field + "`, expected one of "@ + backquoted(names)
}

/// What was found where another value was expected, as it is described.
#[derive(Debug, Clone, Copy)]
pub enum Found<'a> {
    Null,
    Bool(bool),
    Unsigned(u64),
    Signed(i64),
    Text(&'a str),
    List,
    Object,
    /// Described by its own text.
    Other(&'a str),
}

/// The description of what was found.
pub open spec fn described(found: Found<'_>) -> Seq<char> {
    match found {
        Found::Null => "null"@,
        Found::Bool(b) => "boolean `"@ + (if b {
            "true"@
        } else {
            "false"@
        }) + "`"@,
        Found::Unsigned(n) => "integer `"@ + decimal(n as nat) + "`"@,
        Found::Signed(n) => "integer `"@ + signed_decimal(n as int) + "`"@,
        Found::Text(text) => "string "@ + quoted_text(text@),
        Found::List => "sequence"@,
        Found::Object => "map"@,
        Found::Other(text) => text@,
    }
}

/// `serde::de::Error::invalid_type` for `serde_json::Error`, and the error's
/// text: what was found, as it is described, and what was expected.
#[verifier::external_body]
fn invalid_type_error(found: Found<'_>, expected: &'static str) -> (text: String)
    requires
        known_expectation(expected@),
    ensures
        text@ == "invalid type: "@ + described(found) + ", expected "@ + expected@,
{
    let found = match found {
        Found::Null => Unexpected::Unit,
        Found::Bool(b) => Unexpected::Bool(b),
        Found::Unsigned(n) => Unexpected::Unsigned(n),
        Found::Signed(n) => Unexpected::Signed(n),
        Found::Text(text) => Unexpected::Str(text),
        Found::List => Unexpected::Seq,
        Found::Object => Unexpected::Map,
        Found::Other(text) => Unexpected::Other(text),
    };
    <serde_json::Error as serde::de::Error>::invalid_type(found, &expected).to_string()
}

/// Complains about a value of another type: [`invalid_type`]. A number that is
/// no integer is described by the text that it is kept as.
pub(crate) fn invalid_type_text(found: &JsonValue, expected: &'static str) -> (text: String)
    requires
        known_expectation(expected@),
    ensures
        text@ == invalid_type(*found, expected@),
{
    match found {
        JsonValue::Null => invalid_type_error(Found::Null, expected),
        JsonValue::Bool(b) => invalid_type_error(Found::Bool(*b), expected),
        JsonValue::Unsigned(n) => invalid_type_error(Found::Unsigned(*n), expected),
        JsonValue::Signed(n) => invalid_type_error(Found::Signed(*n), expected),
        JsonValue::Float(shown) => {
            let mut text = "floating point `".to_owned();
            text.append(shown.as_str());
            text.append("`");
            invalid_type_error(Found::Other(text.as_str()), expected)
        },
        JsonValue::Text(text) => invalid_type_error(Found::Text(text.as_str()), expected),
        JsonValue::List(_) => invalid_type_error(Found::List, expected),
        JsonValue::Object(_) => invalid_type_error(Found::Object, expected),
    }
}

/// `serde::de::Error::invalid_value` for `serde_json::Error`, and the error's
/// text: what was found, as it is described, and what was expected.
#[verifier::external_body]
pub(crate) fn invalid_value_error(found: Found<'_>, expected: &'static str) -> (text: String)
    requires
        known_expectation(expected@),
    ensures
        text@ == "invalid value: "@ + described(found) + ", expected "@ + expected@,
{
    let found = match found {
        Found::Null => Unexpected::Unit,
        Found::Bool(b) => Unexpected::Bool(b),
        Found::Unsigned(n) => Unexpected::Unsigned(n),
        Found::Signed(n) => Unexpected::Signed(n),
        Found::Text(text) => Unexpected::Str(text),
        Found::List => Unexpected::Seq,
        Found::Object => Unexpected::Map,
        Found::Other(text) => Unexpected::Other(text),
    };
    <serde_json::Error as serde::de::Error>::invalid_value(found, &expected).to_string()
}

/// `serde::de::Error::invalid_length` for `serde_json::Error`, and the error's
/// text: the length and what was expected.
#[verifier::external_body]
pub(crate) fn invalid_length_text(len: usize, expected: &'static str) -> (text: String)
    requires
        known_expectation(expected@),
    ensures
        text@ == invalid_length(len as nat, expected@),
{
    <serde_json::Error as serde::de::Error>::invalid_length(len, &expected).to_string()
}

/// `serde::de::Error::unknown_field` for `serde_json::Error`, and the error's
/// text: the field and the names that there are, three or more.
#[verifier::external_body]
pub(crate) fn unknown_field_text(field: &str, names: &'static [&'static str]) -> (text: String)
    requires
        names@.len() >= 3,
    ensures
        text@ == unknown_field(field@, names@),
{
    <serde_json::Error as serde::de::Error>::unknown_field(field, names).to_string()
}

/// `serde::de::Error::duplicate_field` for `serde_json::Error`, and the error's
/// text: the field.
#[verifier::external_body]
pub(crate) fn duplicate_field_text(field: &'static str) -> (text: String)
    ensures
        text@ == duplicate_field(field@),
{
    <serde_json::Error as serde::de::Error>::duplicate_field(field).to_string()
}

} // verus!
