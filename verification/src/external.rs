//! The trust boundary: decoding the external tool's raw output.
//!
//! The two functions here are the only places where the library relies on
//! code it has not verified. Each names what the outside call returns; the
//! verified response mappers speak of those names and of nothing else about
//! the outside crates.

use vstd::prelude::*;

use crate::json::Json;

verus! {

/// Carrier for the decoder's intermediate document form.
#[verifier::external_type_specification]
#[verifier::external_body]
pub struct ExValue(serde_json::Value);

/// What decoding a byte sequence as JSON yields: the model of the document
/// when the bytes are well-formed JSON text, `None` otherwise. The outcome
/// depends on the bytes alone.
pub uninterp spec fn json_of_bytes(bytes: Seq<u8>) -> Option<Json>;

/// Relies on serde_json::from_slice: whether a byte sequence parses, and the
/// document it parses to, are a function of the bytes alone.
#[verifier::external_body]
pub(crate) fn decode_json(bytes: &[u8]) -> (r: Option<Json>)
    ensures
        r == json_of_bytes(bytes@),
{
    match serde_json::from_slice::<serde_json::Value>(bytes) {
        Ok(v) => Some(value_to_model(&v)),
        Err(_) => None,
    }
}

/// Relies on serde_json::Value: carries the decoded document over into the
/// library's own model, variant by variant. A number in `i64` range becomes
/// an integer; any other number becomes `OtherNumber`; object entries keep
/// the decoder's order.
#[verifier::external_body]
fn value_to_model(v: &serde_json::Value) -> Json {
    match v {
        serde_json::Value::Null => Json::Null,
        serde_json::Value::Bool(b) => Json::Bool(*b),
        serde_json::Value::Number(n) => n.as_i64().map_or(Json::OtherNumber, Json::Int),
        serde_json::Value::String(s) => Json::Str(s.clone()),
        serde_json::Value::Array(a) => Json::Arr(a.iter().map(value_to_model).collect()),
        serde_json::Value::Object(m) => Json::Obj(
            m.iter().map(|(k, w)| (k.clone(), value_to_model(w))).collect(),
        ),
    }
}

/// What lossy UTF-8 decoding of a byte sequence yields; it depends on the
/// bytes alone.
pub uninterp spec fn lossy_utf8(bytes: Seq<u8>) -> Seq<char>;

/// Relies on String::from_utf8_lossy: decodes bytes as UTF-8 text, putting
/// the replacement character where a sequence is invalid; the result is a
/// function of the bytes alone.
#[verifier::external_body]
pub(crate) fn utf8_lossy(bytes: &[u8]) -> (r: String)
    ensures
        r@ == lossy_utf8(bytes@),
{
    String::from_utf8_lossy(bytes).to_string()
}

} // verus!
