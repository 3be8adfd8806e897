//! The trusted boundary to the JSON parser: parsing is serde_json's work,
//! and the parsed document is rebuilt as the library's own `Json` type so
//! that everything read out of it is verified logic.

use vstd::prelude::*;
use crate::json::{Json, JsonModel, json_model};

verus! {

#[verifier::external_type_specification]
#[verifier::external_body]
pub struct ExValue(serde_json::Value);

#[verifier::external_type_specification]
#[verifier::external_body]
pub struct ExJsonError(serde_json::Error);

/// What a text parses to, as this library models parsed documents: `None`
/// when the text is not JSON. `serde_json::from_str` depends on its
/// argument alone, so its outcome can be named.
pub uninterp spec fn json_of(s: Seq<char>) -> Option<JsonModel>;

/// Relies on `serde_json::Value`'s variants: rebuilds a parsed document as
/// the library's own type, one variant per arm, moving fields. Numeric
/// values are not read by any consumer, so they carry nothing.
#[verifier::external_body]
fn value_to_json(v: serde_json::Value) -> Json {
    match v {
        serde_json::Value::Null => Json::Null,
        serde_json::Value::Bool(b) => Json::Bool(b),
        serde_json::Value::Number(_) => Json::Num,
        serde_json::Value::String(s) => Json::Text(s),
        serde_json::Value::Array(a) => Json::Arr(a.into_iter().map(value_to_json).collect()),
        serde_json::Value::Object(m) => Json::Obj(
            m.into_iter().map(|(k, x)| (k, value_to_json(x))).collect(),
        ),
    }
}

/// Relies on `serde_json::from_str`: whether a text is JSON, and what
/// document it parses to, depend on the characters alone, so the outcome is
/// named `json_of`. On failure the parser's error is handed back for its
/// diagnostic.
#[verifier::external_body]
pub(crate) fn parse_json(s: &str) -> (r: Result<Json, serde_json::Error>)
    ensures
        r matches Ok(j) ==> json_of(s@) == Some(json_model(j)),
        r is Err ==> json_of(s@) is None,
{
    serde_json::from_str::<serde_json::Value>(s).map(value_to_json)
}

/// Relies on `ToString` for `serde_json::Error`: the parser's diagnostic
/// line.
#[verifier::external_body]
pub(crate) fn json_error_text(e: &serde_json::Error) -> String {
    e.to_string()
}

} // verus!
