//! JSON documents as `serde_json` reads them.
//!
//! A `serde_json::Value` is opaque to the verifier. What the library reads
//! from one goes by the names below, and each accessor that is called has a
//! wrapper that returns what the name stands for.

use vstd::prelude::*;

verus! {

/// `serde_json::Value`, a JSON document or a part of one; nothing is known
/// of what is inside but through the names below.
#[verifier::external_type_specification]
#[verifier::external_body]
pub struct ExValue(serde_json::Value);

/// `serde_json::Error`, the reason why a text is no JSON document; nothing
/// is read from it.
#[verifier::external_type_specification]
#[verifier::external_body]
pub struct ExError(serde_json::Error);

/// The document that `bytes` spell, where they are one JSON text.
pub uninterp spec fn json_document(bytes: Seq<u8>) -> Option<serde_json::Value>;

/// The member called `key` of `value`, where `value` is an object that has
/// one.
pub uninterp spec fn json_member(value: serde_json::Value, key: Seq<char>) -> Option<
    serde_json::Value,
>;

/// The elements of `value`, where `value` is an array.
pub uninterp spec fn json_items(value: serde_json::Value) -> Option<Seq<serde_json::Value>>;

/// The text of `value`, where `value` is a string.
pub uninterp spec fn json_text(value: serde_json::Value) -> Option<Seq<char>>;

/// Reads `bytes` as one JSON document.
///
/// Calls `serde_json::from_slice` at the type `serde_json::Value`. Trusted:
/// the outcome depends on the bytes alone; `json_document` names it, with
/// `None` for every error.
#[verifier::external_body]
pub(crate) fn parse_document(bytes: &[u8]) -> (parsed: Result<
    serde_json::Value,
    serde_json::Error,
>)
    ensures
        parsed matches Ok(document) ==> json_document(bytes@) == Some(document),
        parsed is Err ==> json_document(bytes@) is None,
{
    serde_json::from_slice::<serde_json::Value>(bytes)
}

/// Looks up the member `key` of an object.
///
/// Calls `serde_json::Value::get` with a string index. Trusted: the outcome
/// is what `json_member` names; it is `None` where `value` is no object or
/// has no such member.
#[verifier::external_body]
pub(crate) fn value_member<'a>(value: &'a serde_json::Value, key: &str) -> (found: Option<
    &'a serde_json::Value,
>)
    ensures
        found matches Some(inner) ==> json_member(*value, key@) == Some(*inner),
        found is None ==> json_member(*value, key@) is None,
{
    value.get(key)
}

/// The elements of an array.
///
/// Calls `serde_json::Value::as_array`. Trusted: the outcome is what
/// `json_items` names; it is `None` where `value` is no array.
#[verifier::external_body]
pub(crate) fn value_items<'a>(value: &'a serde_json::Value) -> (found: Option<
    &'a Vec<serde_json::Value>,
>)
    ensures
        found matches Some(elements) ==> json_items(*value) == Some(elements@),
        found is None ==> json_items(*value) is None,
{
    value.as_array()
}

/// The text of a string.
///
/// Calls `serde_json::Value::as_str`. Trusted: the outcome is what
/// `json_text` names; it is `None` where `value` is no string.
#[verifier::external_body]
pub(crate) fn value_text<'a>(value: &'a serde_json::Value) -> (found: Option<&'a str>)
    ensures
        found matches Some(characters) ==> json_text(*value) == Some(characters@),
        found is None ==> json_text(*value) is None,
{
    value.as_str()
}

} // verus!
