//! The outside types that the tool registry carries through its logic, and the
//! few calls into them that it makes.
use vstd::prelude::*;

verus! {

/// `serde_json::Value`, carried as an opaque value (tool input schemas,
/// tool inputs and result metadata).
#[verifier::external_type_specification]
#[verifier::external_body]
pub struct ExJsonValue(serde_json::Value);

/// `anyhow::Error`, carried as an opaque value (failures of tool handlers).
#[verifier::external_type_specification]
#[verifier::external_body]
pub struct ExAnyhowError(anyhow::Error);

/// Whether a JSON value is `null` (`serde_json::Value::is_null`).
pub uninterp spec fn json_is_null(v: serde_json::Value) -> bool;

/// Whether a JSON value is an object without entries.
pub uninterp spec fn json_is_empty_object(v: serde_json::Value) -> bool;

/// `serde_json::Value::is_null`: its result is the named property of the value.
#[verifier::external_body]
pub(crate) fn json_null_test(v: &serde_json::Value) -> (r: bool)
    ensures
        r == json_is_null(*v),
{
    v.is_null()
}

/// `serde_json::Value::as_object` followed by `Map::is_empty`: true exactly
/// for an object value without entries.
#[verifier::external_body]
pub(crate) fn json_empty_object_test(v: &serde_json::Value) -> (r: bool)
    ensures
        r == json_is_empty_object(*v),
{
    v.as_object().is_some_and(|map| map.is_empty())
}

/// `serde_json::Value::Object(serde_json::Map::new())`: an object without
/// entries, which is not `null`.
#[verifier::external_body]
pub(crate) fn json_empty_object() -> (r: serde_json::Value)
    ensures
        json_is_empty_object(r),
        !json_is_null(r),
{
    serde_json::Value::Object(serde_json::Map::new())
}

/// The JSON string value holding the given text.
pub uninterp spec fn json_string_value(s: Seq<char>) -> serde_json::Value;

/// The JSON object value collected from the given `(key, value)` entries.
pub uninterp spec fn json_object_value(entries: Seq<(Seq<char>, serde_json::Value)>) -> serde_json::Value;

/// The view of `(key, value)` entries.
pub open spec fn entry_views(entries: Seq<(String, serde_json::Value)>) -> Seq<(Seq<char>, serde_json::Value)> {
    entries.map_values(|e: (String, serde_json::Value)| (e.0@, e.1))
}

/// `serde_json::Value::String`: its result is the named string value of `s`.
#[verifier::external_body]
pub(crate) fn json_string(s: String) -> (r: serde_json::Value)
    ensures
        r == json_string_value(s@),
{
    serde_json::Value::String(s)
}

/// `serde_json::Value::Object` of the entries collected into a
/// `serde_json::Map`: its result is the named object value of the entries.
#[verifier::external_body]
pub(crate) fn json_object(entries: Vec<(String, serde_json::Value)>) -> (r: serde_json::Value)
    ensures
        r == json_object_value(entry_views(entries@)),
{
    serde_json::Value::Object(entries.into_iter().collect())
}

/// `<serde_json::Value as Clone>::clone`: a value equal to the original.
pub assume_specification[ <serde_json::Value as Clone>::clone ](v: &serde_json::Value) -> (r:
    serde_json::Value)
    ensures
        r == *v,
;

} // verus!
