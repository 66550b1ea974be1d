//! JSON documents as the engine prints them.
//!
//! Parsing and inspection are done by `serde_json`. This module states what
//! the rest of the crate relies on, gathers what the bridge reads from a
//! document into a [`Shape`], and decides on shapes alone.

use vstd::prelude::*;

verus! {

/// `serde_json::Value`, carried through as an opaque document.
#[verifier::external_type_specification]
#[verifier::external_body]
pub struct ExValue(serde_json::Value);

/// The document that `serde_json::from_str` reads from a text, if the text
/// is one complete JSON document.
pub uninterp spec fn json_document(text: Seq<char>) -> Option<serde_json::Value>;

/// Whether a document is a JSON object, as `Value::is_object` reports it.
pub uninterp spec fn json_is_object(doc: serde_json::Value) -> bool;

/// Whether a document is a JSON array, as `Value::is_array` reports it.
pub uninterp spec fn json_is_array(doc: serde_json::Value) -> bool;

/// Whether `Value::get` finds a member under `key` in a document.
pub uninterp spec fn json_has_member(doc: serde_json::Value, key: Seq<char>) -> bool;

/// `serde_json::from_str::<Value>`: what it reads depends on the text
/// alone. The parse error is dropped; only whether the text parsed is kept.
#[verifier::external_body]
pub(crate) fn parse_document(text: &str) -> (doc: Option<serde_json::Value>)
    ensures
        doc == json_document(text@),
{
    match serde_json::from_str::<serde_json::Value>(text) {
        Ok(value) => Some(value),
        Err(_) => None,
    }
}

/// `Value::is_object` answers the question that `json_is_object` names.
pub assume_specification[ serde_json::Value::is_object ](doc: &serde_json::Value) -> (yes: bool)
    ensures
        yes == json_is_object(*doc),
;

/// `Value::is_array` answers the question that `json_is_array` names.
pub assume_specification[ serde_json::Value::is_array ](doc: &serde_json::Value) -> (yes: bool)
    ensures
        yes == json_is_array(*doc),
;

/// `Value::get` with a text key: a member is handed out exactly when the
/// document has one under that key. Nothing is claimed about the member.
#[verifier::external_body]
pub(crate) fn member<'a>(doc: &'a serde_json::Value, key: &str) -> (found: Option<
    &'a serde_json::Value,
>)
    ensures
        found is Some == json_has_member(*doc, key@),
{
    doc.get(key)
}

/// What the bridge reads from a document.
#[derive(Debug, Clone, Copy, PartialEq, Eq)]
pub struct Shape {
    /// The document is an object.
    pub is_object: bool,
    /// The document is an array.
    pub is_array: bool,
    /// The document has a member named `code`.
    pub has_code: bool,
    /// The document has a member named `message`.
    pub has_message: bool,
}

/// The shape of a document.
pub open spec fn shape_of(doc: serde_json::Value) -> Shape {
    Shape {
        is_object: json_is_object(doc),
        is_array: json_is_array(doc),
        has_code: json_has_member(doc, "code"@),
        has_message: json_has_member(doc, "message"@),
    }
}

impl Shape {
    /// A document is structured when it is an object or an array; scalars
    /// are treated as plain text by the classifier.
    pub open spec fn spec_is_structured(&self) -> bool {
        self.is_object || self.is_array
    }

    /// The engine's error shape: an object with both a `code` and a
    /// `message` member, whatever else it holds.
    pub open spec fn spec_is_error(&self) -> bool {
        self.is_object && self.has_code && self.has_message
    }

    /// Whether the document is an object or an array.
    #[verifier::when_used_as_spec(spec_is_structured)]
    pub fn is_structured(&self) -> (yes: bool)
        ensures
            yes == self.is_structured(),
    {
        self.is_object || self.is_array
    }

    /// Whether the document has the engine's error shape.
    #[verifier::when_used_as_spec(spec_is_error)]
    pub fn is_error(&self) -> (yes: bool)
        ensures
            yes == self.is_error(),
    {
        self.is_object && self.has_code && self.has_message
    }
}

/// Reads the shape off a document.
pub fn inspect(doc: &serde_json::Value) -> (shape: Shape)
    ensures
        shape == shape_of(*doc),
{
    Shape {
        is_object: doc.is_object(),
        is_array: doc.is_array(),
        has_code: member(doc, "code").is_some(),
        has_message: member(doc, "message").is_some(),
    }
}

} // verus!
