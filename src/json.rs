//! Member lookup in JSON documents, done by serde_json.
use vstd::prelude::*;

verus! {

/// The string held by member `key` of the top-level object of the JSON text
/// `text`; none where the text is no JSON object, or the member is absent or
/// is not a string.
pub uninterp spec fn json_str_member(text: Seq<char>, key: Seq<char>) -> Option<Seq<char>>;

/// The unsigned integer held by member `key` of the top-level object of the
/// JSON text `text`; none where the text is no JSON object, or the member is
/// absent or is no integer in the range of `u64`.
pub uninterp spec fn json_u64_member(text: Seq<char>, key: Seq<char>) -> Option<u64>;

/// The view of an optional string.
pub open spec fn opt_view(o: Option<String>) -> Option<Seq<char>> {
    match o {
        Some(s) => Some(s@),
        None => None,
    }
}

/// Relies on serde_json::from_str (into serde_json::Value), Value::get and
/// Value::as_str: the string member `key` of the document `text`.
#[verifier::external_body]
pub(crate) fn str_member(text: &str, key: &str) -> (r: Option<String>)
    ensures
        opt_view(r) == json_str_member(text@, key@),
{
    let v: serde_json::Value = serde_json::from_str(text).ok()?;
    v.get(key).and_then(|m| m.as_str()).map(|s| s.to_string())
}

/// Relies on serde_json::from_str (into serde_json::Value), Value::get and
/// Value::as_u64: the unsigned integer member `key` of the document `text`.
#[verifier::external_body]
pub(crate) fn u64_member(text: &str, key: &str) -> (r: Option<u64>)
    ensures
        r == json_u64_member(text@, key@),
{
    let v: serde_json::Value = serde_json::from_str(text).ok()?;
    v.get(key).and_then(|m| m.as_u64())
}

} // verus!
