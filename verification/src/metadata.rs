//! Normalisation of a token's metadata document.

use vstd::prelude::*;
use vstd::string::*;
use crate::json::{json_member, json_text, member, text};

verus! {

/// The canonical fields lifted from a metadata document, with the document.
#[derive(Debug, Clone)]
pub struct NormalizedMetadata {
    pub name: Option<String>,
    pub description: Option<String>,
    pub image: Option<String>,
    pub animation_url: Option<String>,
    pub attributes: Option<serde_json::Value>,
    pub raw: serde_json::Value,
}

/// The characters of an optional string.
pub open spec fn opt_text(s: Option<String>) -> Option<Seq<char>> {
    match s {
        Some(t) => Some(t@),
        None => None,
    }
}

/// The text under a top-level key, present only where the member exists and
/// is a JSON string.
pub open spec fn string_field(doc: serde_json::Value, key: Seq<char>) -> Option<Seq<char>> {
    match json_member(doc, key) {
        Some(m) => json_text(m),
        None => None,
    }
}

impl NormalizedMetadata {
    /// Every field is what flat key lookup in `raw` gives, and the document
    /// itself is kept.
    pub open spec fn is_normal_form_of(self, raw: serde_json::Value) -> bool {
        &&& opt_text(self.name) == string_field(raw, "name"@)
        &&& opt_text(self.description) == string_field(raw, "description"@)
        &&& opt_text(self.image) == string_field(raw, "image"@)
        &&& opt_text(self.animation_url) == string_field(raw, "animation_url"@)
        &&& self.attributes == json_member(raw, "attributes"@)
        &&& self.raw == raw
    }
}

/// Looks a key up at the top level of a document and keeps the member only
/// if it is a string.
pub fn string_member(doc: &serde_json::Value, key: &str) -> (out: Option<String>)
    ensures
        opt_text(out) == string_field(*doc, key@),
{
    match member(doc, key) {
        Some(m) => match text(m) {
            Some(s) => Some(s.to_owned()),
            None => None,
        },
        None => None,
    }
}

/// Extracts the canonical fields of a parsed metadata document.
pub fn normalize(raw: serde_json::Value) -> (out: NormalizedMetadata)
    ensures
        out.is_normal_form_of(raw),
{
    let name = string_member(&raw, "name");
    let description = string_member(&raw, "description");
    let image = string_member(&raw, "image");
    let animation_url = string_member(&raw, "animation_url");
    let attributes = match member(&raw, "attributes") {
        Some(m) => Some(m.clone()),
        None => None,
    };
    NormalizedMetadata { name, description, image, animation_url, attributes, raw }
}

/// A field whose member is missing, or is not a JSON string, is absent from
/// the normalised output; one that is a string appears with its text.
pub proof fn lemma_only_strings_are_lifted(meta: NormalizedMetadata, raw: serde_json::Value)
    requires
        meta.is_normal_form_of(raw),
    ensures
        meta.name is Some <==> (json_member(raw, "name"@) matches Some(m) && json_text(m) is Some),
        meta.description is Some <==> (json_member(raw, "description"@) matches Some(m)
            && json_text(m) is Some),
        meta.image is Some <==> (json_member(raw, "image"@) matches Some(m) && json_text(m) is Some),
        meta.animation_url is Some <==> (json_member(raw, "animation_url"@) matches Some(m)
            && json_text(m) is Some),
{
}

} // verus!
