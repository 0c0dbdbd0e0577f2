//! JSON text. `serde_json` reads it; the tree is this library's own.
use crate::model::json::{Json, JsonMap, JsonView, Number};
use serde_json::Value;
use vstd::prelude::*;

verus! {

/// A JSON tree of `serde_json`. It only carries a tree out of the reader.
#[verifier::external_type_specification]
#[verifier::external_body]
pub struct ExValue(Value);

/// The value that a JSON text denotes; none where the text is not one JSON value.
pub uninterp spec fn text_value(text: Seq<char>) -> Option<JsonView>;

/// Converts a `serde_json::Value`, variant by variant. Nothing is claimed of it alone.
#[verifier::external_body]
fn from_value(value: Value) -> Json {
    match value {
        Value::Null => Json::Null,
        Value::Bool(b) => Json::Bool(b),
        Value::Number(n) => Json::Number(
            n.as_u64().map(Number::Unsigned).or(n.as_i64().map(Number::Negative)).unwrap_or(
                Number::Float(n.as_f64().map_or(0, |x| x.to_bits())),
            ),
        ),
        Value::String(s) => Json::String(s),
        Value::Array(items) => Json::Array(items.into_iter().map(from_value).collect()),
        Value::Object(map) => Json::Object(
            JsonMap { entries: map.into_iter().map(|(k, v)| (k, from_value(v))).collect() },
        ),
    }
}

/// `serde_json::from_str`: reads one JSON value, or fails where the text is not one. The text
/// alone decides what is read.
#[verifier::external_body]
fn read_value(text: &str) -> (r: Option<Json>)
    ensures
        r is Some <==> text_value(text@) is Some,
        r matches Some(j) ==> text_value(text@) == Some(j@),
{
    serde_json::from_str(text).ok().map(from_value)
}

/// Reads a JSON text; none where it is not one JSON value.
pub fn parse_json(text: &str) -> (r: Option<Json>)
    ensures
        match text_value(text@) {
            Some(value) => r is Some && r->0@ == value,
            None => r is None,
        },
{
    read_value(text)
}

} // verus!
