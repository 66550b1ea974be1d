//! Line classification: what one line of the engine's primary stream is.

use vstd::prelude::*;
use vstd::slice::slice_subrange;
use crate::decimal::{byte_of, parse_byte};
use crate::json::{inspect, json_document, parse_document, shape_of, Shape};
use crate::text::{chars_of, starts_with, trim, trimmed};

verus! {

/// What a line of the primary stream turned out to be.
#[derive(Debug, PartialEq)]
pub enum ClassifiedSignal {
    /// A progress line, with its percentage where it carries one.
    Progress(Option<u8>),
    /// A JSON object or array.
    StructuredPayload(serde_json::Value),
    /// Anything else, kept as it came.
    OpaqueText(String),
}

/// The mathematical form of a [`ClassifiedSignal`].
pub enum ClassifiedSignalView {
    Progress(Option<u8>),
    StructuredPayload(serde_json::Value),
    OpaqueText(Seq<char>),
}

impl View for ClassifiedSignal {
    type V = ClassifiedSignalView;

    open spec fn view(&self) -> ClassifiedSignalView {
        match self {
            ClassifiedSignal::Progress(percent) => ClassifiedSignalView::Progress(*percent),
            ClassifiedSignal::StructuredPayload(doc) => ClassifiedSignalView::StructuredPayload(
                *doc,
            ),
            ClassifiedSignal::OpaqueText(text) => ClassifiedSignalView::OpaqueText(text@),
        }
    }
}

/// The highest percentage.
pub const FULL_PROGRESS: u8 = 100;

/// The word that opens a progress line, with the blank after it.
pub open spec fn progress_marker() -> Seq<char> {
    "PROGRESS "@
}

/// The percentage that a text denotes: a byte in decimal that is at most
/// one hundred.
pub open spec fn percentage_of(text: Seq<char>) -> Option<u8> {
    match byte_of(text) {
        Some(n) => if n <= FULL_PROGRESS {
            Some(n)
        } else {
            None
        },
        None => None,
    }
}

/// What a line reports as a progress line. Every line that opens with the
/// marker is a progress line; it carries a percentage where one follows the
/// marker, with any white space around it, and carries none otherwise. A
/// line that does not open with the marker is no progress line.
pub open spec fn progress_of(line: Seq<char>) -> Option<Option<u8>> {
    if progress_marker().is_prefix_of(line) {
        Some(percentage_of(trimmed(line.skip(progress_marker().len() as int))))
    } else {
        None
    }
}

/// A document of the given shape as a payload: kept where it is
/// structured, dropped where it is a scalar.
pub open spec fn structured_only(doc: serde_json::Value, shape: Shape) -> Option<
    serde_json::Value,
> {
    if shape.is_structured() {
        Some(doc)
    } else {
        None
    }
}

/// The structured payload that a line is, if the whole line is one JSON
/// object or array.
pub open spec fn payload_of(line: Seq<char>) -> Option<serde_json::Value> {
    match json_document(line) {
        Some(doc) => structured_only(doc, shape_of(doc)),
        None => None,
    }
}

/// The signal for a line, given what it reports as a progress line and
/// the payload it is. Progress comes first, then a payload; every other
/// line is opaque text.
pub open spec fn signal_for(
    line: Seq<char>,
    progress: Option<Option<u8>>,
    payload: Option<serde_json::Value>,
) -> ClassifiedSignalView {
    match progress {
        Some(percent) => ClassifiedSignalView::Progress(percent),
        None => match payload {
            Some(doc) => ClassifiedSignalView::StructuredPayload(doc),
            None => ClassifiedSignalView::OpaqueText(line),
        },
    }
}

/// The classification of a line where progress is watched for.
pub open spec fn classify(line: Seq<char>) -> ClassifiedSignalView {
    signal_for(line, progress_of(line), payload_of(line))
}

/// The classification of a line where progress is not watched for: a line
/// that opens with the marker is then a line like any other.
pub open spec fn classify_plain(line: Seq<char>) -> ClassifiedSignalView {
    signal_for(line, None, payload_of(line))
}

/// A progress line never counts as payload or text, whatever follows the
/// marker; a percentage is never above one hundred; a line is a payload
/// only as a whole and only where it is structured; and a line kept as text
/// is kept unchanged.
pub proof fn lemma_classification(line: Seq<char>)
    ensures
        progress_marker().is_prefix_of(line) <==> classify(line) is Progress,
        match classify(line) {
            ClassifiedSignalView::Progress(Some(percent)) => percent <= FULL_PROGRESS,
            ClassifiedSignalView::Progress(None) => true,
            ClassifiedSignalView::StructuredPayload(doc) => json_document(line) == Some(doc)
                && shape_of(doc).is_structured(),
            ClassifiedSignalView::OpaqueText(text) => text == line,
        },
        !(classify_plain(line) is Progress),
{
}

/// Tells whether a line is a progress line, and reads its percentage.
pub fn read_progress(line: &str) -> (progress: Option<Option<u8>>)
    ensures
        progress == progress_of(line@),
{
    let chars = chars_of(line);
    let marker = chars_of("PROGRESS ");
    if !starts_with(chars.as_slice(), marker.as_slice()) {
        return None;
    }
    let rest = slice_subrange(chars.as_slice(), marker.len(), chars.len());
    assert(rest@ =~= line@.skip(progress_marker().len() as int));
    match parse_byte(trim(rest)) {
        Some(n) => if n <= FULL_PROGRESS {
            Some(Some(n))
        } else {
            Some(None)
        },
        None => Some(None),
    }
}

/// Keeps a document as a payload where its shape is structured.
pub fn keep_structured(doc: serde_json::Value, shape: Shape) -> (payload: Option<
    serde_json::Value,
>)
    ensures
        payload == structured_only(doc, shape),
{
    if shape.is_structured() {
        Some(doc)
    } else {
        None
    }
}

/// Parses a line and keeps the document where it is structured.
pub fn read_payload(line: &str) -> (payload: Option<serde_json::Value>)
    ensures
        payload == payload_of(line@),
{
    match parse_document(line) {
        Some(doc) => {
            let shape = inspect(&doc);
            keep_structured(doc, shape)
        },
        None => None,
    }
}

/// Forms the signal for a line from what it reports as a progress line
/// and the payload it is.
pub fn form_signal(
    line: &str,
    progress: Option<Option<u8>>,
    payload: Option<serde_json::Value>,
) -> (signal: ClassifiedSignal)
    ensures
        signal@ == signal_for(line@, progress, payload),
{
    match progress {
        Some(percent) => ClassifiedSignal::Progress(percent),
        None => match payload {
            Some(doc) => ClassifiedSignal::StructuredPayload(doc),
            None => ClassifiedSignal::OpaqueText(line.to_owned()),
        },
    }
}

/// Classifies one line of the primary stream, watching for progress.
pub fn classify_line(line: &str) -> (signal: ClassifiedSignal)
    ensures
        signal@ == classify(line@),
{
    let progress = read_progress(line);
    let payload = if progress.is_none() {
        read_payload(line)
    } else {
        None
    };
    form_signal(line, progress, payload)
}

/// Classifies one line of the primary stream without watching for progress.
pub fn classify_plain_line(line: &str) -> (signal: ClassifiedSignal)
    ensures
        signal@ == classify_plain(line@),
{
    form_signal(line, None, read_payload(line))
}

} // verus!
