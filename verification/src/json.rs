//! The parts of `serde_json` that the pipeline reads documents through.
//!
//! A document is carried as a `serde_json::Value`, which the verifier treats
//! as opaque. What the pipeline needs from a document is named here, and each
//! call into `serde_json` is tied to its name.

use vstd::prelude::*;

verus! {

#[verifier::external_type_specification]
#[verifier::external_body]
pub struct ExValue(serde_json::Value);

#[verifier::external_type_specification]
#[verifier::external_body]
pub struct ExJsonError(serde_json::Error);

/// The document that a byte string parses to, if it is JSON at all.
pub uninterp spec fn json_parse(bytes: Seq<u8>) -> Option<serde_json::Value>;

/// The top-level member of a document under a key. There is none where the
/// document is not an object or the object lacks the key.
pub uninterp spec fn json_member(doc: serde_json::Value, key: Seq<char>) -> Option<
    serde_json::Value,
>;

/// The text of a value that is a JSON string. Any other kind of value has none.
pub uninterp spec fn json_text(value: serde_json::Value) -> Option<Seq<char>>;

/// Calls `serde_json::from_slice` for a `Value`. The result is a function of
/// the bytes alone; the contract gives it its name and claims nothing about
/// which inputs parse.
#[verifier::external_body]
pub(crate) fn parse(bytes: &[u8]) -> (out: Result<serde_json::Value, serde_json::Error>)
    ensures
        out matches Ok(doc) ==> json_parse(bytes@) == Some(doc),
        out is Err ==> json_parse(bytes@) is None,
{
    serde_json::from_slice(bytes)
}

/// Calls `serde_json::Value::get` with a string key: the member of an object
/// under that key, and nothing for a missing key or a value of another kind.
#[verifier::external_body]
pub(crate) fn member<'a>(doc: &'a serde_json::Value, key: &str) -> (out: Option<
    &'a serde_json::Value,
>)
    ensures
        out matches Some(m) ==> json_member(*doc, key@) == Some(*m),
        out is None ==> json_member(*doc, key@) is None,
{
    doc.get(key)
}

/// Calls `serde_json::Value::as_str`: the text of a JSON string, and nothing
/// for a value of any other kind.
#[verifier::external_body]
pub(crate) fn text<'a>(value: &'a serde_json::Value) -> (out: Option<&'a str>)
    ensures
        out matches Some(s) ==> json_text(*value) == Some(s@),
        out is None ==> json_text(*value) is None,
{
    value.as_str()
}

/// `Clone::clone` of `serde_json::Value`, whose derived impl copies the value
/// structurally: the copy equals the original.
pub assume_specification[ <serde_json::Value as Clone>::clone ](value: &serde_json::Value) -> (out:
    serde_json::Value)
    ensures
        out == *value,
;

} // verus!
