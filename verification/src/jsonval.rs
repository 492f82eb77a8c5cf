//! Trusted declarations for the JSON values the response parser walks.
//! Each wrapper makes exactly one call into `serde_json`; the values stay
//! opaque, and everything proved about parsing rests on the verified code
//! around these wrappers, never on the values' insides.

use vstd::prelude::*;

verus! {

/// Declares `serde_json::Value`, the JSON library's decoded value, so it
/// can pass through signatures; it stays opaque.
#[verifier::external_type_specification]
#[verifier::external_body]
pub struct ExValue(serde_json::Value);

/// Relies on `serde_json::from_str::<Value>`: decodes one JSON document, or
/// reports the decoder's message.
#[verifier::external_body]
pub(crate) fn json_from_str(s: &str) -> Result<serde_json::Value, String> {
    serde_json::from_str::<serde_json::Value>(s).map_err(|e| e.to_string())
}

/// Relies on `serde_json::Value::get`: member lookup by key; `None` when the
/// value is no object or has no such member.
#[verifier::external_body]
pub(crate) fn value_get<'a>(v: &'a serde_json::Value, key: &str) -> Option<&'a serde_json::Value> {
    v.get(key)
}

/// Relies on `serde_json::Value::as_str`: `Some` exactly when the value is a
/// JSON string, owned here.
#[verifier::external_body]
pub(crate) fn value_as_string(v: &serde_json::Value) -> Option<String> {
    v.as_str().map(|s| s.to_string())
}

/// Relies on `serde_json::Value::as_array`: `Some` exactly when the value is
/// a JSON array.
#[verifier::external_body]
pub(crate) fn value_as_array<'a>(v: &'a serde_json::Value) -> Option<&'a Vec<serde_json::Value>> {
    v.as_array()
}

/// Relies on `serde_json::Value::is_null`: whether the value is JSON `null`.
#[verifier::external_body]
pub(crate) fn value_is_null(v: &serde_json::Value) -> bool {
    v.is_null()
}

} // verus!
