//! Trusted boundary to serde_json: parsing the upstream body text and
//! carrying the parsed document over into the library's own value model.

use vstd::prelude::*;
use crate::json::JsonValue;

verus! {

/// What `serde_json::from_str::<serde_json::Value>` yields on a given text,
/// carried into the library's value model: `Some` exactly on valid JSON.
pub uninterp spec fn parsed_doc(s: Seq<char>) -> Option<JsonValue>;

/// The library's model of one parsed `serde_json::Value`.
pub uninterp spec fn value_model(v: serde_json::Value) -> JsonValue;

#[verifier::external_type_specification]
#[verifier::external_body]
pub struct ExValue(serde_json::Value);

/// Relies on `serde_json::from_str::<serde_json::Value>`: a deterministic
/// parse of the text, succeeding exactly on valid JSON.
#[verifier::external_body]
fn parse_text(s: &str) -> (r: Option<serde_json::Value>)
    ensures
        (match r {
            Some(v) => parsed_doc(s@) == Some(value_model(v)),
            None => parsed_doc(s@) is None,
        }),
{
    serde_json::from_str(s).ok()
}

/// Relies on `serde_json::Value`'s variants, carried over one arm each into
/// the library's model; an object's entries keep the order its map iterates
/// in, and a number's value is dropped (the model keeps none).
#[verifier::external_body]
fn to_model(v: serde_json::Value) -> (r: JsonValue)
    ensures
        r == value_model(v),
{
    match v {
        serde_json::Value::Null => JsonValue::Null,
        serde_json::Value::Bool(b) => JsonValue::Bool(b),
        serde_json::Value::Number(_) => JsonValue::Num,
        serde_json::Value::String(s) => JsonValue::Str(s),
        serde_json::Value::Array(a) => JsonValue::Arr(a.into_iter().map(to_model).collect()),
        serde_json::Value::Object(m) => JsonValue::Obj(
            m.into_iter().map(|(k, x)| (k, to_model(x))).collect(),
        ),
    }
}

/// Parses the upstream body text into the library's value model; `None`
/// exactly when the text is not valid JSON.
pub fn parse_document(s: &str) -> (r: Option<JsonValue>)
    ensures
        (match r {
            Some(v) => parsed_doc(s@) == Some(v),
            None => parsed_doc(s@) is None,
        }),
{
    match parse_text(s) {
        Some(v) => Some(to_model(v)),
        None => None,
    }
}

} // verus!
