//! Judgement: whether what the engine printed is a result or an error.
//!
//! A structured payload is judged by its shape. Where no payload was seen
//! line by line, one is looked for in the buffered text: in the stretch
//! between its outermost braces, or in the text as a whole.

use vstd::prelude::*;
use crate::json::{inspect, json_document, parse_document, shape_of, Shape};
use crate::text::{chars_of, first_index, last_index};

verus! {

/// How a structured payload is judged.
#[derive(Debug, PartialEq)]
pub enum Verdict {
    /// The payload is the operation's result.
    Result(serde_json::Value),
    /// The payload has the engine's error shape.
    Error(serde_json::Value),
}

/// The member under which a judged payload travels when it is wrapped
/// together with a container path: `data` for a result, `error` for an
/// error.
pub open spec fn wrapper_key(verdict: Verdict) -> Seq<char> {
    match verdict {
        Verdict::Result(_) => "data"@,
        Verdict::Error(_) => "error"@,
    }
}

impl Verdict {
    /// The member under which the payload travels when it is wrapped
    /// together with a container path.
    pub fn key(&self) -> (key: &'static str)
        ensures
            key@ == wrapper_key(*self),
    {
        match self {
            Verdict::Result(_) => "data",
            Verdict::Error(_) => "error",
        }
    }

    /// The payload that was judged.
    pub fn into_value(self) -> (value: serde_json::Value)
        ensures
            self == Verdict::Result(value) || self == Verdict::Error(value),
    {
        match self {
            Verdict::Result(value) => value,
            Verdict::Error(value) => value,
        }
    }
}

/// The judgement of a document of the given shape: an error if it has the
/// engine's error shape, a result otherwise.
pub open spec fn verdict_for(doc: serde_json::Value, shape: Shape) -> Verdict {
    if shape.is_error() {
        Verdict::Error(doc)
    } else {
        Verdict::Result(doc)
    }
}

/// The judgement of a document.
pub open spec fn verdict_of(doc: serde_json::Value) -> Verdict {
    verdict_for(doc, shape_of(doc))
}

/// The judgement of the document in a text, if the text is a document.
pub open spec fn document_verdict(text: Seq<char>) -> Option<Verdict> {
    match json_document(text) {
        Some(doc) => Some(verdict_of(doc)),
        None => None,
    }
}

/// The stretch of a text from its first `{` to its last `}`, both included,
/// where both occur and the last `}` does not stand before the first `{`.
pub open spec fn braced(text: Seq<char>) -> Option<Seq<char>> {
    match (text.index_of_first('{'), text.index_of_last('}')) {
        (Some(open), Some(close)) => if close >= open {
            Some(text.subrange(open, close + 1))
        } else {
            None
        },
        _ => None,
    }
}

/// What buffered text amounts to when no payload was seen line by line:
/// the judgement of its braced stretch where it has one, and of the whole
/// text where it has none. A braced stretch that is no document leaves
/// nothing to judge.
pub open spec fn text_verdict(text: Seq<char>) -> Option<Verdict> {
    match braced(text) {
        Some(stretch) => document_verdict(stretch),
        None => document_verdict(text),
    }
}

/// Judges a document by its shape.
pub fn judge_shape(doc: serde_json::Value, shape: Shape) -> (verdict: Verdict)
    ensures
        verdict == verdict_for(doc, shape),
{
    if shape.is_error() {
        Verdict::Error(doc)
    } else {
        Verdict::Result(doc)
    }
}

/// Judges a document.
pub fn judge(doc: serde_json::Value) -> (verdict: Verdict)
    ensures
        verdict == verdict_of(doc),
{
    let shape = inspect(&doc);
    judge_shape(doc, shape)
}

/// Parses a text and judges the document in it.
pub fn judge_text(text: &str) -> (verdict: Option<Verdict>)
    ensures
        verdict == document_verdict(text@),
{
    match parse_document(text) {
        Some(doc) => Some(judge(doc)),
        None => None,
    }
}

/// Cuts the braced stretch out of a text.
pub fn extract_braced(text: &str) -> (stretch: Option<&str>)
    ensures
        stretch.deep_view() == braced(text@),
{
    let chars = chars_of(text);
    match (first_index(chars.as_slice(), '{'), last_index(chars.as_slice(), '}')) {
        (Some(open), Some(close)) => {
            if close >= open {
                Some(text.substring_char(open, close + 1))
            } else {
                None
            }
        },
        _ => None,
    }
}

/// Resolves buffered text.
pub fn resolve_text(text: &str) -> (verdict: Option<Verdict>)
    ensures
        verdict == text_verdict(text@),
{
    match extract_braced(text) {
        Some(stretch) => judge_text(stretch),
        None => judge_text(text),
    }
}

} // verus!
