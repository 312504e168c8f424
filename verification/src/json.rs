//! The JSON boundary. Parsing text into a structured value is delegated to
//! serde_json and trusted; the parsed document is handed to the rest of the
//! library as [`JsonValue`], a tree of plain values that the decoding logic
//! is verified against.

use vstd::prelude::*;

verus! {

/// A parsed JSON document, held as plain values. Numbers are kept only when
/// they fit a signed 64-bit integer — the only numbers the playlist records
/// use; any other number (too large, or not an integer) is marked
/// [`JsonValue::OutOfRangeNumber`] and fails the shape checks downstream.
#[derive(Debug, PartialEq)]
pub enum JsonValue {
    Null,
    Bool(bool),
    Int(i64),
    OutOfRangeNumber,
    Str(String),
    Arr(Vec<JsonValue>),
    Obj(Vec<(String, JsonValue)>),
}

#[verifier::external_type_specification]
#[verifier::external_body]
pub struct ExSerdeValue(serde_json::Value);

/// What `serde_json::from_str::<serde_json::Value>` parses a given text to:
/// `Some` of the document (as rebuilt by [`parse_json`]) when the text is
/// valid JSON, `None` otherwise. The result depends on the text alone.
pub uninterp spec fn json_parse(s: Seq<char>) -> Option<JsonValue>;

/// Relies on the variants of `serde_json::Value` and on
/// `serde_json::Number::as_i64`: rebuilds a parsed document with every
/// number held as an `i64` where it fits one. Object entries keep the order
/// of `serde_json::Map` (one entry per key).
#[verifier::external_body]
fn from_serde(v: serde_json::Value) -> JsonValue {
    match v {
        serde_json::Value::Null => JsonValue::Null,
        serde_json::Value::Bool(b) => JsonValue::Bool(b),
        serde_json::Value::Number(n) => match n.as_i64() {
            Some(i) => JsonValue::Int(i),
            None => JsonValue::OutOfRangeNumber,
        },
        serde_json::Value::String(s) => JsonValue::Str(s),
        serde_json::Value::Array(a) => JsonValue::Arr(a.into_iter().map(from_serde).collect()),
        serde_json::Value::Object(o) => JsonValue::Obj(o.into_iter().map(|(k, w)| (k, from_serde(w))).collect()),
    }
}

/// Relies on `serde_json::from_str::<serde_json::Value>`: parses the text as
/// generic JSON, failing exactly when the text is not valid JSON; whether it
/// parses and what it parses to depend on the text alone. An `Err` carries
/// serde_json's parse diagnostic.
#[verifier::external_body]
pub(crate) fn parse_json(s: &str) -> (r: Result<JsonValue, String>)
    ensures
        r matches Ok(v) ==> json_parse(s@) == Some(v),
        r matches Err(_) ==> json_parse(s@) is None,
{
    match serde_json::from_str::<serde_json::Value>(s) {
        Ok(v) => Ok(from_serde(v)),
        Err(e) => Err(e.to_string()),
    }
}

} // verus!
