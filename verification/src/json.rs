//! The reading of JSON text, done by `serde_json`.
//!
//! A document is kept as the `serde_json::Value` that the crate hands out. Of
//! what it holds, the agent reads only the members of the outermost object
//! whose values are strings.

use vstd::prelude::*;

verus! {

#[verifier::external_type_specification]
#[verifier::external_body]
pub struct ExJsonValue(serde_json::Value);

#[verifier::external_type_specification]
#[verifier::external_body]
pub struct ExJsonError(serde_json::Error);

/// What a document holds for the agent: where it is an object, each member
/// whose value is a string, by its key; nothing for any other document. Of a
/// key that the text gives more than once, `serde_json` keeps the member given
/// last, and it is that one which counts here.
pub uninterp spec fn string_members(document: serde_json::Value) -> Map<Seq<char>, Seq<char>>;

/// The string members of the document that `serde_json::from_slice` reads from
/// these bytes; `None` where it reads none.
pub uninterp spec fn document_strings(bytes: Seq<u8>) -> Option<Map<Seq<char>, Seq<char>>>;

/// Calls `serde_json::from_slice` for a `serde_json::Value`. Trusted: the call
/// succeeds exactly where [`document_strings`] names a document for these
/// bytes, and the value returned holds the string members named there.
#[verifier::external_body]
pub(crate) fn json_from_slice(bytes: &[u8]) -> (parsed: Result<
    serde_json::Value,
    serde_json::Error,
>)
    ensures
        parsed is Ok <==> document_strings(bytes@) is Some,
        parsed matches Ok(document) ==> document_strings(bytes@) == Some(
            string_members(document),
        ),
{
    serde_json::from_slice(bytes)
}

/// Calls `serde_json::Value::get` with a key and copies the string found
/// there. Trusted: a string comes back exactly for the keys of
/// [`string_members`], and it is the one held under that key.
#[verifier::external_body]
pub(crate) fn json_string_member(document: &serde_json::Value, key: &str) -> (member: Option<
    String,
>)
    ensures
        member is Some <==> string_members(*document).contains_key(key@),
        member matches Some(text) ==> string_members(*document)[key@] == text@,
{
    match document.get(key) {
        Some(serde_json::Value::String(text)) => Some(text.clone()),
        _ => None,
    }
}

} // verus!
