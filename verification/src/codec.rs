//! Reading and writing JSON text.
//!
//! The grammar of JSON is left to `serde_json`. What it returns for a given
//! input is named here by two uninterpreted functions, [`parsed_json`] and
//! [`printed_json`], so that the contracts of the engine can state exactly
//! which text is parsed and which value is printed.

use serde_json::Value;
use vstd::prelude::*;
use crate::json::{Json, JsonValue};

verus! {

/// The value type of `serde_json`. It is opaque here: the wrappers below
/// convert it to and from [`Json`] and nothing else reads it.
#[verifier::external_type_specification]
#[verifier::external_body]
pub struct ExJsonTree(Value);

/// The value that `serde_json::from_str` reads from `text`, or `None` where
/// it rejects the text.
pub uninterp spec fn parsed_json(text: Seq<char>) -> Option<JsonValue>;

/// The compact text that `serde_json::to_string` writes for `value`.
pub uninterp spec fn printed_json(value: JsonValue) -> Seq<char>;

/// Converts a value of `serde_json` into a [`Json`], variant by variant.
/// A number becomes `Unsigned` where `serde_json::Number::as_u64` gives it,
/// else `Signed` where `as_i64` gives it, else `Real` with its decimal text.
///
/// Trusted, with nothing stated of its result: it is the conversion inside
/// [`parse_json`], whose contract rests on it.
#[verifier::external_body]
fn import_value(value: &Value) -> Json {
    match value {
        Value::Null => Json::Null,
        Value::Bool(b) => Json::Bool(*b),
        Value::Number(n) => match (n.as_u64(), n.as_i64()) {
            (Some(u), _) => Json::Unsigned(u),
            (None, Some(i)) => Json::Signed(i),
            (None, None) => Json::Real(n.to_string()),
        },
        Value::String(s) => Json::String(s.clone()),
        Value::Array(a) => Json::Array(a.iter().map(import_value).collect()),
        Value::Object(m) => Json::Object(m.iter().map(|(k, v)| (k.clone(), import_value(v))).collect()),
    }
}

/// Converts a [`Json`] into a value of `serde_json`, variant by variant.
/// The text of a `Real` is read back as a `serde_json::Number`; where that
/// fails the value is `null`. Of several members with one name the last
/// stays, as in the maps of `serde_json`.
///
/// Trusted, with nothing stated of its result: it is the conversion inside
/// [`json_text`], whose contract rests on it.
#[verifier::external_body]
fn export_value(value: &Json) -> Value {
    match value {
        Json::Null => Value::Null,
        Json::Bool(b) => Value::Bool(*b),
        Json::Unsigned(n) => Value::from(*n),
        Json::Signed(n) => Value::from(*n),
        Json::Real(t) => serde_json::from_str(t).map_or(Value::Null, Value::Number),
        Json::String(t) => Value::String(t.clone()),
        Json::Array(a) => Value::Array(a.iter().map(export_value).collect()),
        Json::Object(m) => Value::Object(m.iter().map(|(k, v)| (k.clone(), export_value(v))).collect()),
    }
}

/// Parses JSON text with `serde_json::from_str`.
///
/// Trusted: the result is the value that `serde_json` reads from the text,
/// and `None` exactly where `serde_json` returns an error.
#[verifier::external_body]
pub(crate) fn parse_json(text: &str) -> (out: Option<Json>)
    ensures
        match out {
            Some(value) => parsed_json(text@) == Some(value@),
            None => parsed_json(text@).is_none(),
        },
{
    serde_json::from_str::<Value>(text).ok().map(|v| import_value(&v))
}

/// Prints a value as compact JSON text with `serde_json::to_string`.
///
/// Trusted: the result is the text that `serde_json` writes for the value.
#[verifier::external_body]
pub(crate) fn json_text(value: &Json) -> (out: String)
    ensures
        out@ == printed_json(value@),
{
    serde_json::to_string(&export_value(value)).unwrap_or_default()
}

} // verus!
