//! Decoding JSON text with `serde_json`.
use vstd::prelude::*;

use crate::json::{Json, JsonModel};

verus! {

/// `serde_json`'s dynamically typed JSON value, carried only inside the
/// decoding step below.
#[verifier::external_type_specification]
#[verifier::external_body]
pub struct ExSerdeJsonValue(serde_json::Value);

/// What `serde_json::from_slice::<serde_json::Value>` makes of the given
/// bytes: the document, or the text of the error it reports.  It depends on
/// the bytes alone.
pub uninterp spec fn json_decode(raw: Seq<u8>) -> Result<JsonModel, Seq<char>>;

/// Calls `serde_json::from_slice::<serde_json::Value>` and hands the document
/// over as a [`Json`] (or the error as its `Display` text).  The contract
/// claims only that the outcome is the function `json_decode` of the bytes;
/// the JSON grammar itself is not stated.
#[verifier::external_body]
pub(crate) fn decode_json(raw: &[u8]) -> (r: Result<Json, String>)
    ensures
        match r {
            Ok(j) => json_decode(raw@) == Ok::<JsonModel, Seq<char>>(j@),
            Err(e) => json_decode(raw@) == Err::<JsonModel, Seq<char>>(e@),
        },
{
    match serde_json::from_slice::<serde_json::Value>(raw) {
        Ok(v) => Ok(json_from_serde(v)),
        Err(e) => Err(e.to_string()),
    }
}

/// Moves a `serde_json::Value` into a [`Json`], one variant for one variant
/// (a number as the text `serde_json` prints for it).  Used only by
/// [`decode_json`], whose contract covers the result.
#[verifier::external_body]
fn json_from_serde(v: serde_json::Value) -> Json {
    match v {
        serde_json::Value::Null => Json::Null,
        serde_json::Value::Bool(b) => Json::Bool(b),
        serde_json::Value::Number(n) => Json::Number(n.to_string()),
        serde_json::Value::String(s) => Json::Str(s),
        serde_json::Value::Array(a) => Json::Array(a.into_iter().map(json_from_serde).collect()),
        serde_json::Value::Object(m) => Json::Object(
            m.into_iter().map(|(k, x)| (k, json_from_serde(x))).collect(),
        ),
    }
}

} // verus!
