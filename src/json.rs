use vstd::prelude::*;

verus! {

#[verifier::external_type_specification]
#[verifier::external_body]
pub struct ExJsonValue(serde_json::Value);

/// Relies on `serde_json::Value::get` with a string key: the member of an
/// object under that key. Nothing is known of the value's contents.
#[verifier::external_body]
pub(crate) fn json_member<'a>(v: &'a serde_json::Value, key: &str) -> (r: Option<
    &'a serde_json::Value,
>) {
    v.get(key)
}

/// Relies on `serde_json::Value::as_str`: the text of a string value.
#[verifier::external_body]
pub(crate) fn json_text(v: &serde_json::Value) -> (r: Option<String>) {
    v.as_str().map(|s| s.to_owned())
}

/// Relies on `serde_json::Value::as_i64`: an integer value that fits in an `i64`.
#[verifier::external_body]
pub(crate) fn json_integer(v: &serde_json::Value) -> (r: Option<i64>) {
    v.as_i64()
}

/// Relies on `serde_json::Value::as_array`: the elements of an array value.
#[verifier::external_body]
pub(crate) fn json_elements(v: &serde_json::Value) -> (r: Option<&Vec<serde_json::Value>>) {
    v.as_array()
}

} // verus!
