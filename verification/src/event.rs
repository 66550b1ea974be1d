//! Lifecycle events: what the bridge reports about one engine run.

use vstd::prelude::*;
use crate::text::with_prefix;

verus! {

/// One report to the event sink.
#[derive(Debug, PartialEq)]
pub enum Event {
    /// A line of the primary stream, passed through as it came.
    Stdout(String),
    /// A line of the secondary stream, passed through as it came.
    Stderr(String),
    /// A progress percentage.
    Progress(u8),
    /// The engine has exited; the flag says whether it reported success.
    Done(bool),
    /// The final structured result, with the container path it belongs to
    /// where the operation carries one.
    Result { path: Option<String>, value: serde_json::Value },
    /// The final structured error, with the container path it belongs to
    /// where the operation carries one.
    Error { path: Option<String>, value: serde_json::Value },
    /// What a failed engine wrote on its secondary stream.
    ErrorText(String),
}

/// The mathematical form of an [`Event`].
pub enum EventView {
    Stdout(Seq<char>),
    Stderr(Seq<char>),
    Progress(u8),
    Done(bool),
    Result { path: Option<Seq<char>>, value: serde_json::Value },
    Error { path: Option<Seq<char>>, value: serde_json::Value },
    ErrorText(Seq<char>),
}

impl View for Event {
    type V = EventView;

    open spec fn view(&self) -> EventView {
        match self {
            Event::Stdout(line) => EventView::Stdout(line@),
            Event::Stderr(line) => EventView::Stderr(line@),
            Event::Progress(percent) => EventView::Progress(*percent),
            Event::Done(ok) => EventView::Done(*ok),
            Event::Result { path, value } => EventView::Result {
                path: path.deep_view(),
                value: *value,
            },
            Event::Error { path, value } => EventView::Error {
                path: path.deep_view(),
                value: *value,
            },
            Event::ErrorText(text) => EventView::ErrorText(text@),
        }
    }
}

impl DeepView for Event {
    type V = EventView;

    open spec fn deep_view(&self) -> EventView {
        self@
    }
}

/// The ending of the channel name on which an event is reported. Both
/// kinds of error share one channel.
pub open spec fn channel_suffix(event: EventView) -> Seq<char> {
    match event {
        EventView::Stdout(_) => "-stdout"@,
        EventView::Stderr(_) => "-stderr"@,
        EventView::Progress(_) => "-progress"@,
        EventView::Done(_) => "-done"@,
        EventView::Result { .. } => "-result"@,
        EventView::Error { .. } => "-error"@,
        EventView::ErrorText(_) => "-error"@,
    }
}

impl Event {
    /// The channel on which this event is reported for the operation with
    /// the given prefix: the prefix, then the ending for the kind of event.
    pub fn channel(&self, prefix: &str) -> (name: String)
        ensures
            name@ == prefix@ + channel_suffix(self@),
    {
        let suffix = match self {
            Event::Stdout(_) => "-stdout",
            Event::Stderr(_) => "-stderr",
            Event::Progress(_) => "-progress",
            Event::Done(_) => "-done",
            Event::Result { .. } => "-result",
            Event::Error { .. } => "-error",
            Event::ErrorText(_) => "-error",
        };
        with_prefix(prefix, suffix)
    }
}

/// Appends one event to a list of events.
pub fn push_event(list: &mut Vec<Event>, event: Event)
    ensures
        final(list).deep_view() == old(list).deep_view().push(event@),
{
    list.push(event);
    assert(list.deep_view() =~= old(list).deep_view().push(event@));
}

/// Appends a list of events to a list of events.
pub fn push_events(list: &mut Vec<Event>, more: Vec<Event>)
    ensures
        final(list).deep_view() == old(list).deep_view() + more.deep_view(),
{
    let mut more = more;
    let ghost added = more.deep_view();
    list.append(&mut more);
    assert(list.deep_view() =~= old(list).deep_view() + added);
}

} // verus!
