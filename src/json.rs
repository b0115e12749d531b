//! Reading single members of JSON documents through `serde_json`.

use vstd::prelude::*;
use crate::text::opt_view;

verus! {

/// The string member `key` of the JSON object that `text` holds, if `text`
/// parses as an object with a string there.
pub uninterp spec fn json_str_member(text: Seq<char>, key: Seq<char>) -> Option<Seq<char>>;

/// The unsigned integer member `key` of the JSON object that `text` holds, if
/// `text` parses as an object with a non-negative integer there that fits in `u64`.
pub uninterp spec fn json_u64_member(text: Seq<char>, key: Seq<char>) -> Option<u64>;

/// Relies on `serde_json::from_str` into a `serde_json::Value`, `Value::get`
/// and `Value::as_str`.
#[verifier::external_body]
pub(crate) fn str_member(text: &str, key: &str) -> (r: Option<String>)
    ensures
        opt_view(r) == json_str_member(text@, key@),
{
    let value: serde_json::Value = serde_json::from_str(text).ok()?;
    value.get(key).and_then(|m| m.as_str()).map(|m| m.to_string())
}

/// Relies on `serde_json::from_str` into a `serde_json::Value`, `Value::get`
/// and `Value::as_u64`.
#[verifier::external_body]
pub(crate) fn u64_member(text: &str, key: &str) -> (r: Option<u64>)
    ensures
        r == json_u64_member(text@, key@),
{
    let value: serde_json::Value = serde_json::from_str(text).ok()?;
    value.get(key).and_then(|m| m.as_u64())
}

} // verus!
