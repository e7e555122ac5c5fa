//! The JSON values that requests and responses carry, and the few `serde_json` calls
//! that the library makes on them.
//!
//! A `serde_json::Value` is opaque here: the library carries it through and asks
//! `serde_json` about it only through the trusted items of this module.
use vstd::prelude::*;

verus! {

/// `serde_json::Value`, carried through the library as an opaque value.
#[verifier::external_type_specification]
#[verifier::external_body]
pub struct ExValue(serde_json::Value);

/// `serde_json::Error`, the error of a failed parse or conversion.
#[verifier::external_type_specification]
#[verifier::external_body]
pub struct ExJsonError(serde_json::Error);

/// What `serde_json::Value::is_null` returns for `v`.
pub uninterp spec fn json_is_null(v: serde_json::Value) -> bool;

/// What `serde_json::from_str::<serde_json::Value>` returns for the text `text`.
pub uninterp spec fn json_from_str(text: Seq<char>) -> Result<serde_json::Value, serde_json::Error>;

/// What `serde_json::Value::as_str` returns for `v`: the string's characters when `v`
/// is a JSON string, `None` otherwise.
pub uninterp spec fn json_as_str(v: serde_json::Value) -> Option<Seq<char>>;

/// What `serde_json::Value::is_array` returns for `v`.
pub uninterp spec fn json_is_array(v: serde_json::Value) -> bool;

/// The JSON `null`, built as `serde_json::Value::Null`.
///
/// Claimed: `serde_json::Value::is_null` holds of the result (its documentation: it
/// "returns true if the `Value` is a Null").
#[verifier::external_body]
pub(crate) fn json_null() -> (v: serde_json::Value)
    ensures
        json_is_null(v),
{
    serde_json::Value::Null
}

/// Calls `serde_json::from_str::<serde_json::Value>` on `text`.
///
/// Claimed: the result is `json_from_str(text@)`, that is, a function of the text alone.
#[verifier::external_body]
pub(crate) fn parse_json(text: &str) -> (r: Result<serde_json::Value, serde_json::Error>)
    ensures
        r == json_from_str(text@),
{
    serde_json::from_str::<serde_json::Value>(text)
}

/// Calls `serde_json::Value::as_str` on `v`.
///
/// Claimed: the characters of the returned string are `json_as_str(*v)`.
#[verifier::external_body]
pub(crate) fn value_as_str(v: &serde_json::Value) -> (r: Option<&str>)
    ensures
        match r {
            Some(s) => json_as_str(*v) == Some(s@),
            None => json_as_str(*v) is None,
        },
{
    v.as_str()
}

/// Calls `serde_json::Value::is_array` on `v`.
///
/// Claimed: the result is `json_is_array(*v)`.
#[verifier::external_body]
pub(crate) fn value_is_array(v: &serde_json::Value) -> (r: bool)
    ensures
        r == json_is_array(*v),
{
    v.is_array()
}

} // verus!
