//! The stream classifier's state and the events of one engine run.
//!
//! The caller reads the engine's two streams line by line and hands each
//! line to [`StreamState::absorb`], which says what to report at once.
//! When the engine has exited, [`StreamState::resolve`] derives the
//! [`Outcome`], and [`Outcome::events`] says what to report at the end.

use vstd::prelude::*;
use crate::classify::{
    classify, classify_line, classify_plain, classify_plain_line, progress_marker,
    ClassifiedSignal, ClassifiedSignalView,
};
use crate::event::{push_event, push_events, Event, EventView};
use crate::resolve::{judge, resolve_text, text_verdict, verdict_of, Verdict};
use crate::text::{join_texts, joined, push_text};

verus! {

/// Which of the engine's two output streams a line came from.
#[derive(Debug, Clone, Copy, PartialEq, Eq)]
pub enum StreamOrigin {
    /// The primary stream: progress, structured payloads, text.
    Primary,
    /// The secondary stream: diagnostics.
    Secondary,
}

/// One line of engine output, without its line ending.
#[derive(Debug, Clone, PartialEq, Eq)]
pub struct RawLine {
    pub origin: StreamOrigin,
    pub text: String,
}

/// The mathematical form of a [`RawLine`].
pub struct RawLineView {
    pub origin: StreamOrigin,
    pub text: Seq<char>,
}

impl View for RawLine {
    type V = RawLineView;

    open spec fn view(&self) -> RawLineView {
        RawLineView { origin: self.origin, text: self.text@ }
    }
}

/// What the classifier has gathered from the lines seen so far.
pub struct StreamState {
    last_payload: Option<serde_json::Value>,
    primary_text: Vec<String>,
    secondary_text: String,
}

/// The mathematical form of a [`StreamState`].
pub struct StreamStateView {
    /// The structured payload seen last on the primary stream.
    pub last_payload: Option<serde_json::Value>,
    /// The opaque lines of the primary stream, in the order they came.
    pub primary_text: Seq<Seq<char>>,
    /// Every line of the secondary stream, each followed by a line feed.
    pub secondary_text: Seq<char>,
}

/// The mathematical form of an [`Outcome`].
pub struct OutcomeView {
    /// Whether the engine reported success on exit.
    pub exit_ok: bool,
    /// The judgement of the primary stream, if it supports one.
    pub verdict: Option<Verdict>,
    /// The secondary text, where the engine failed and wrote any.
    pub diagnostics: Option<Seq<char>>,
}

/// A line of the primary stream.
pub open spec fn primary(text: Seq<char>) -> RawLineView {
    RawLineView { origin: StreamOrigin::Primary, text }
}

/// A line of the secondary stream.
pub open spec fn secondary(text: Seq<char>) -> RawLineView {
    RawLineView { origin: StreamOrigin::Secondary, text }
}

/// What is reported at once for a primary line with the given signal: the
/// line itself, and after it the percentage where the line is a progress
/// line that carries one.
pub open spec fn primary_events(text: Seq<char>, signal: ClassifiedSignalView) -> Seq<EventView> {
    match signal {
        ClassifiedSignalView::Progress(Some(percent)) => seq![
            EventView::Stdout(text),
            EventView::Progress(percent),
        ],
        _ => seq![EventView::Stdout(text)],
    }
}

/// What is reported at once for a line: every line is passed through,
/// whatever it is.
pub open spec fn line_events(line: RawLineView) -> Seq<EventView> {
    match line.origin {
        StreamOrigin::Primary => primary_events(line.text, classify(line.text)),
        StreamOrigin::Secondary => seq![EventView::Stderr(line.text)],
    }
}

impl StreamStateView {
    /// The state before any line.
    pub open spec fn empty() -> StreamStateView {
        StreamStateView {
            last_payload: None,
            primary_text: Seq::empty(),
            secondary_text: Seq::empty(),
        }
    }

    /// The state after a signal of the primary stream. A progress line
    /// changes nothing, whether or not it carries a percentage; a
    /// structured payload takes the place of the one held; opaque text is
    /// added to the primary buffer.
    pub open spec fn record(self, signal: ClassifiedSignalView) -> StreamStateView {
        match signal {
            ClassifiedSignalView::Progress(_) => self,
            ClassifiedSignalView::StructuredPayload(doc) => StreamStateView {
                last_payload: Some(doc),
                ..self
            },
            ClassifiedSignalView::OpaqueText(text) => StreamStateView {
                primary_text: self.primary_text.push(text),
                ..self
            },
        }
    }

    /// The state after a line of the secondary stream: the line is added,
    /// with a line feed, to the secondary buffer.
    pub open spec fn note(self, text: Seq<char>) -> StreamStateView {
        StreamStateView { secondary_text: self.secondary_text + text + seq!['\n'], ..self }
    }

    /// The state after one more line.
    pub open spec fn absorb(self, line: RawLineView) -> StreamStateView {
        match line.origin {
            StreamOrigin::Primary => self.record(classify(line.text)),
            StreamOrigin::Secondary => self.note(line.text),
        }
    }

    /// The state after one more line of the primary stream where progress
    /// is not watched for and nothing is reported line by line.
    pub open spec fn buffer(self, text: Seq<char>) -> StreamStateView {
        self.record(classify_plain(text))
    }

    /// The state after lines of the primary stream, taken in order, where
    /// progress is not watched for.
    pub open spec fn buffer_all(self, texts: Seq<Seq<char>>) -> StreamStateView
        decreases texts.len(),
    {
        if texts.len() == 0 {
            self
        } else {
            self.buffer_all(texts.drop_last()).buffer(texts.last())
        }
    }

    /// The state after the lines of one stream, taken in order.
    pub open spec fn drain(self, origin: StreamOrigin, texts: Seq<Seq<char>>) -> StreamStateView
        decreases texts.len(),
    {
        if texts.len() == 0 {
            self
        } else {
            self.drain(origin, texts.drop_last()).absorb(
                RawLineView { origin, text: texts.last() },
            )
        }
    }

    /// The judgement that the primary stream supports: that of the payload
    /// held, else that of the opaque lines joined by line feeds.
    pub open spec fn verdict(self) -> Option<Verdict> {
        match self.last_payload {
            Some(doc) => Some(verdict_of(doc)),
            None => text_verdict(joined(self.primary_text, seq!['\n'])),
        }
    }

    /// The outcome of the run, given how the engine exited.
    pub open spec fn outcome(self, exit_ok: bool) -> OutcomeView {
        OutcomeView::new(exit_ok, self.verdict(), self.secondary_text)
    }
}

/// What is reported at once for the lines of one stream, line after line.
pub open spec fn passed_through(origin: StreamOrigin, texts: Seq<Seq<char>>) -> Seq<EventView>
    decreases texts.len(),
{
    if texts.len() == 0 {
        Seq::empty()
    } else {
        passed_through(origin, texts.drop_last()) + line_events(
            RawLineView { origin, text: texts.last() },
        )
    }
}

/// Everything that is reported for a run whose primary stream is drained
/// to its end before its secondary stream is read: the primary lines, the
/// secondary lines, and then what the outcome calls for.
pub open spec fn run_events(
    primary_lines: Seq<Seq<char>>,
    secondary_lines: Seq<Seq<char>>,
    exit_ok: bool,
    context_path: Option<Seq<char>>,
) -> Seq<EventView> {
    let state = StreamStateView::empty().drain(StreamOrigin::Primary, primary_lines).drain(
        StreamOrigin::Secondary,
        secondary_lines,
    );
    passed_through(StreamOrigin::Primary, primary_lines) + passed_through(
        StreamOrigin::Secondary,
        secondary_lines,
    ) + state.outcome(exit_ok).events(context_path)
}

impl View for StreamState {
    type V = StreamStateView;

    closed spec fn view(&self) -> StreamStateView {
        StreamStateView {
            last_payload: self.last_payload,
            primary_text: self.primary_text.deep_view(),
            secondary_text: self.secondary_text@,
        }
    }
}

/// What a finished run amounts to. An outcome is made by [`Outcome::new`]
/// only, so that diagnostics are held only after a failed exit and are
/// never empty.
#[derive(Debug, PartialEq)]
pub struct Outcome {
    exit_ok: bool,
    verdict: Option<Verdict>,
    diagnostics: Option<String>,
}

impl View for Outcome {
    type V = OutcomeView;

    closed spec fn view(&self) -> OutcomeView {
        OutcomeView {
            exit_ok: self.exit_ok,
            verdict: self.verdict,
            diagnostics: self.diagnostics.deep_view(),
        }
    }
}

impl OutcomeView {
    /// The outcome for an exit status, a judgement and the secondary text.
    /// The secondary text counts as an error of its own only after a
    /// failed exit, and only where there is any.
    pub open spec fn new(
        exit_ok: bool,
        verdict: Option<Verdict>,
        secondary_text: Seq<char>,
    ) -> OutcomeView {
        OutcomeView {
            exit_ok,
            verdict,
            diagnostics: if !exit_ok && secondary_text.len() > 0 {
                Some(secondary_text)
            } else {
                None
            },
        }
    }

    /// Diagnostics are held only after a failed exit, and are never empty.
    pub open spec fn wf(self) -> bool {
        self.diagnostics matches Some(text) ==> !self.exit_ok && text.len() > 0
    }

    /// The engine failed and left nothing to report: neither a judgement nor
    /// diagnostics. Such a run is an unresolved failure, not a success.
    pub open spec fn is_ambiguous(self) -> bool {
        !self.exit_ok && self.verdict is None && self.diagnostics is None
    }

    /// The engine succeeded without structured output.
    pub open spec fn is_silent_success(self) -> bool {
        self.exit_ok && self.verdict is None
    }

    /// What is reported at the end: completion first; then the judgement,
    /// if there is one, with the container path the operation carries; then
    /// the diagnostics, if there are any. A result and the diagnostics can
    /// both be reported.
    pub open spec fn events(self, context_path: Option<Seq<char>>) -> Seq<EventView> {
        let done = seq![EventView::Done(self.exit_ok)];
        let judged = match self.verdict {
            Some(Verdict::Result(value)) => seq![EventView::Result { path: context_path, value }],
            Some(Verdict::Error(value)) => seq![EventView::Error { path: context_path, value }],
            None => Seq::empty(),
        };
        let failed = match self.diagnostics {
            Some(text) => seq![EventView::ErrorText(text)],
            None => Seq::empty(),
        };
        done + judged + failed
    }
}

impl StreamState {
    /// A state that has seen no line.
    pub fn new() -> (state: StreamState)
        ensures
            state@ == StreamStateView::empty(),
    {
        let state = StreamState {
            last_payload: None,
            primary_text: Vec::new(),
            secondary_text: String::new(),
        };
        assert(state.primary_text.deep_view() =~= Seq::<Seq<char>>::empty());
        state
    }

    /// Takes in a signal of the primary stream.
    pub fn record(&mut self, signal: ClassifiedSignal)
        ensures
            final(self)@ == old(self)@.record(signal@),
    {
        match signal {
            ClassifiedSignal::Progress(_) => {},
            ClassifiedSignal::StructuredPayload(doc) => {
                self.last_payload = Some(doc);
            },
            ClassifiedSignal::OpaqueText(text) => {
                push_text(&mut self.primary_text, text);
            },
        }
    }

    /// Takes in a line of the secondary stream.
    pub fn note(&mut self, text: &str)
        ensures
            final(self)@ == old(self)@.note(text@),
    {
        self.secondary_text.append(text);
        self.secondary_text.append("\n");
        proof {
            reveal_strlit("\n");
            assert("\n"@ =~= seq!['\n']);
        }
    }

    /// Takes in one line and says what to report for it at once.
    pub fn absorb(&mut self, line: RawLine) -> (events: Vec<Event>)
        ensures
            final(self)@ == old(self)@.absorb(line@),
            events.deep_view() == line_events(line@),
    {
        match line.origin {
            StreamOrigin::Primary => {
                let signal = classify_line(line.text.as_str());
                let events = report_primary(line.text, &signal);
                self.record(signal);
                events
            },
            StreamOrigin::Secondary => {
                self.note(line.text.as_str());
                let mut events: Vec<Event> = Vec::new();
                assert(events.deep_view() =~= Seq::<EventView>::empty());
                push_event(&mut events, Event::Stderr(line.text));
                assert(events.deep_view() =~= line_events(line@));
                events
            },
        }
    }

    /// Takes in one line of the primary stream without watching for
    /// progress and without anything to report.
    pub fn buffer(&mut self, text: &str)
        ensures
            final(self)@ == old(self)@.buffer(text@),
    {
        self.record(classify_plain_line(text));
    }

    /// Takes in lines of the primary stream, in order, without watching
    /// for progress.
    pub fn buffer_all(&mut self, texts: &Vec<String>)
        ensures
            final(self)@ == old(self)@.buffer_all(texts.deep_view()),
    {
        let ghost lines = texts.deep_view();
        let mut i: usize = 0;
        assert(lines.take(0) =~= Seq::<Seq<char>>::empty());
        while i < texts.len()
            invariant
                i <= texts.len(),
                lines == texts.deep_view(),
                self@ == old(self)@.buffer_all(lines.take(i as int)),
            decreases texts.len() - i,
        {
            self.buffer(texts[i].as_str());
            proof {
                let next = lines.take(i + 1);
                assert(next.drop_last() =~= lines.take(i as int));
                assert(next.last() == texts[i as int]@);
            }
            i += 1;
        }
        assert(lines.take(texts.len() as int) =~= lines);
    }

    /// Takes in the lines of one stream, in order, and adds what to report
    /// for them to `events`.
    pub fn drain(&mut self, origin: StreamOrigin, texts: &Vec<String>, events: &mut Vec<Event>)
        ensures
            final(self)@ == old(self)@.drain(origin, texts.deep_view()),
            final(events).deep_view() == old(events).deep_view() + passed_through(
                origin,
                texts.deep_view(),
            ),
    {
        let ghost lines = texts.deep_view();
        let mut i: usize = 0;
        assert(lines.take(0) =~= Seq::<Seq<char>>::empty());
        assert(events.deep_view() =~= old(events).deep_view() + passed_through(
            origin,
            lines.take(0),
        ));
        while i < texts.len()
            invariant
                i <= texts.len(),
                lines == texts.deep_view(),
                self@ == old(self)@.drain(origin, lines.take(i as int)),
                events.deep_view() == old(events).deep_view() + passed_through(
                    origin,
                    lines.take(i as int),
                ),
            decreases texts.len() - i,
        {
            let ghost before = events.deep_view();
            let line = RawLine { origin, text: texts[i].clone() };
            let reported = self.absorb(line);
            push_events(events, reported);
            proof {
                let next = lines.take(i + 1);
                assert(next.drop_last() =~= lines.take(i as int));
                assert(next.last() == line@.text);
                assert(events.deep_view() =~= old(events).deep_view() + passed_through(
                    origin,
                    next,
                ));
            }
            i += 1;
        }
        assert(lines.take(texts.len() as int) =~= lines);
    }

    fn settle(self) -> (settled: (Option<Verdict>, String))
        ensures
            settled.0 == self@.verdict(),
            settled.1@ == self@.secondary_text,
    {
        let verdict = match self.last_payload {
            Some(doc) => Some(judge(doc)),
            None => {
                let text = join_texts(&self.primary_text, "\n");
                proof {
                    reveal_strlit("\n");
                    assert("\n"@ =~= seq!['\n']);
                }
                resolve_text(text.as_str())
            },
        };
        (verdict, self.secondary_text)
    }

    /// Derives the judgement that the primary stream supports.
    pub fn verdict(self) -> (verdict: Option<Verdict>)
        ensures
            verdict == self@.verdict(),
    {
        self.settle().0
    }

    /// Derives the outcome once the engine has exited and both streams are
    /// drained.
    pub fn resolve(self, exit_ok: bool) -> (outcome: Outcome)
        ensures
            outcome@ == self@.outcome(exit_ok),
            outcome@.wf(),
    {
        let (verdict, secondary_text) = self.settle();
        Outcome::new(exit_ok, verdict, secondary_text)
    }
}

/// Says everything there is to report for a finished run of which all the
/// lines are at hand: the primary stream is taken in first, then the
/// secondary stream, then the outcome is derived from the exit status.
pub fn replay(
    primary_lines: &Vec<String>,
    secondary_lines: &Vec<String>,
    exit_ok: bool,
    context_path: Option<String>,
) -> (events: Vec<Event>)
    ensures
        events.deep_view() == run_events(
            primary_lines.deep_view(),
            secondary_lines.deep_view(),
            exit_ok,
            context_path.deep_view(),
        ),
{
    let mut state = StreamState::new();
    let mut events: Vec<Event> = Vec::new();
    assert(events.deep_view() =~= Seq::<EventView>::empty());
    state.drain(StreamOrigin::Primary, primary_lines, &mut events);
    state.drain(StreamOrigin::Secondary, secondary_lines, &mut events);
    push_events(&mut events, state.resolve(exit_ok).events(context_path));
    assert(events.deep_view() =~= run_events(
        primary_lines.deep_view(),
        secondary_lines.deep_view(),
        exit_ok,
        context_path.deep_view(),
    ));
    events
}

/// Says what to report at once for a primary line with the given signal.
pub fn report_primary(text: String, signal: &ClassifiedSignal) -> (events: Vec<Event>)
    ensures
        events.deep_view() == primary_events(text@, signal@),
{
    let mut events: Vec<Event> = Vec::new();
    assert(events.deep_view() =~= Seq::<EventView>::empty());
    push_event(&mut events, Event::Stdout(text));
    match signal {
        ClassifiedSignal::Progress(Some(percent)) => {
            push_event(&mut events, Event::Progress(*percent));
        },
        _ => {},
    }
    assert(events.deep_view() =~= primary_events(text@, signal@));
    events
}

impl Outcome {
    #[verifier::type_invariant]
    spec fn well_formed(&self) -> bool {
        self.diagnostics matches Some(text) ==> !self.exit_ok && text@.len() > 0
    }

    /// Whether the engine reported success on exit.
    pub fn exit_ok(&self) -> (ok: bool)
        ensures
            ok == self@.exit_ok,
    {
        self.exit_ok
    }

    /// The judgement of the primary stream, if it supports one.
    pub fn verdict(&self) -> (verdict: &Option<Verdict>)
        ensures
            *verdict == self@.verdict,
    {
        &self.verdict
    }

    /// The secondary text, where the engine failed and wrote any.
    pub fn diagnostics(&self) -> (diagnostics: &Option<String>)
        ensures
            diagnostics.deep_view() == self@.diagnostics,
            self@.wf(),
    {
        proof {
            use_type_invariant(self);
        }
        &self.diagnostics
    }

    /// Forms the outcome for an exit status, a judgement and the secondary
    /// text.
    pub fn new(exit_ok: bool, verdict: Option<Verdict>, secondary_text: String) -> (outcome:
        Outcome)
        ensures
            outcome@ == OutcomeView::new(exit_ok, verdict, secondary_text@),
            outcome@.wf(),
    {
        let diagnostics = if !exit_ok && !secondary_text.as_str().is_empty() {
            Some(secondary_text)
        } else {
            None
        };
        Outcome { exit_ok, verdict, diagnostics }
    }

    /// Whether the run is an unresolved failure.
    pub fn is_ambiguous(&self) -> (yes: bool)
        ensures
            yes == self@.is_ambiguous(),
    {
        !self.exit_ok && self.verdict.is_none() && self.diagnostics.is_none()
    }

    /// Whether the run succeeded without structured output.
    pub fn is_silent_success(&self) -> (yes: bool)
        ensures
            yes == self@.is_silent_success(),
    {
        self.exit_ok && self.verdict.is_none()
    }

    /// Says what to report at the end of the run.
    pub fn events(self, context_path: Option<String>) -> (events: Vec<Event>)
        ensures
            events.deep_view() == self@.events(context_path.deep_view()),
            self@.wf(),
    {
        proof {
            use_type_invariant(&self);
        }
        let mut events: Vec<Event> = Vec::new();
        assert(events.deep_view() =~= Seq::<EventView>::empty());
        push_event(&mut events, Event::Done(self.exit_ok));
        match self.verdict {
            Some(Verdict::Result(value)) => {
                push_event(&mut events, Event::Result { path: context_path, value });
            },
            Some(Verdict::Error(value)) => {
                push_event(&mut events, Event::Error { path: context_path, value });
            },
            None => {},
        }
        match self.diagnostics {
            Some(text) => {
                push_event(&mut events, Event::ErrorText(text));
            },
            None => {},
        }
        assert(events.deep_view() =~= self@.events(context_path.deep_view()));
        events
    }
}


/// Lines of different streams do not get in each other's way: taking a
/// primary line before a secondary one leaves the state that taking them
/// the other way round leaves. What a run amounts to therefore depends on
/// the order of lines within each stream only.
pub proof fn lemma_streams_are_independent(
    state: StreamStateView,
    out: Seq<char>,
    err: Seq<char>,
)
    ensures
        state.absorb(primary(out)).absorb(secondary(err)) == state.absorb(secondary(err)).absorb(
            primary(out),
        ),
{
}

/// Of two structured payloads in a row only the second counts: the state
/// is the one that the second alone would have left, and the judgement is
/// that of the second.
pub proof fn lemma_last_payload_wins(state: StreamStateView, first: Seq<char>, second: Seq<char>)
    requires
        classify(first) is StructuredPayload,
        classify(second) is StructuredPayload,
    ensures
        state.absorb(primary(first)).absorb(primary(second)) == state.absorb(primary(second)),
        state.absorb(primary(first)).absorb(primary(second)).verdict() == Some(
            verdict_of(classify(second)->StructuredPayload_0),
        ),
{
}

/// Whether or not progress is watched for, a line that does not open with
/// the progress marker is taken in the same way.
pub proof fn lemma_forms_agree(state: StreamStateView, text: Seq<char>)
    requires
        !progress_marker().is_prefix_of(text),
    ensures
        state.absorb(primary(text)) == state.buffer(text),
{
}

/// Where progress is not watched for, the structured payload seen last
/// decides the judgement: the payload of a line after which no line is a
/// payload is the one held in the end, whatever came before it and whatever
/// text comes after it.
pub proof fn lemma_last_payload_decides(state: StreamStateView, lines: Seq<Seq<char>>, at: int)
    requires
        0 <= at < lines.len(),
        classify_plain(lines[at]) is StructuredPayload,
        forall|j: int| at < j < lines.len() ==> !(classify_plain(lines[j]) is StructuredPayload),
    ensures
        state.buffer_all(lines).last_payload == Some(
            classify_plain(lines[at])->StructuredPayload_0,
        ),
        state.buffer_all(lines).verdict() == Some(
            verdict_of(classify_plain(lines[at])->StructuredPayload_0),
        ),
    decreases lines.len(),
{
    let front = lines.drop_last();
    if at < lines.len() - 1 {
        assert(front[at] == lines[at]);
        assert forall|j: int| at < j < front.len() implies !(classify_plain(front[j])
            is StructuredPayload) by {
            assert(front[j] == lines[j]);
        }
        lemma_last_payload_decides(state, front, at);
    }
}

/// A payload that was seen line by line decides the judgement, whatever
/// opaque text came before or after it.
pub proof fn lemma_payload_outranks_text(state: StreamStateView, text: Seq<char>)
    requires
        state.last_payload is Some,
        classify(text) is OpaqueText,
    ensures
        state.absorb(primary(text)).verdict() == state.verdict(),
{
}

/// The events at the end of a run. Completion is reported exactly once
/// and first; a result is reported at most once; an error is reported not
/// at all, once or twice. A failed exit with text on the secondary stream
/// is always reported as an error carrying that text, last of all, beside
/// whatever judgement the primary stream supports; in every other case no
/// such error is reported.
pub proof fn lemma_final_events(
    state: StreamStateView,
    exit_ok: bool,
    context_path: Option<Seq<char>>,
)
    ensures
        ({
            let events = state.outcome(exit_ok).events(context_path);
            let judged: int = if state.verdict() is Some {
                1
            } else {
                0
            };
            let failed = !exit_ok && state.secondary_text.len() > 0;
            &&& events.len() == 1 + judged + if failed {
                1int
            } else {
                0int
            }
            &&& events[0] == EventView::Done(exit_ok)
            &&& forall|i: int| 1 <= i < events.len() ==> !(events[i] is Done)
            &&& forall|i: int|
                0 <= i < events.len() && (events[i] is Result || events[i] is Error) ==> i == 1
            &&& failed ==> events.last() == EventView::ErrorText(state.secondary_text)
            &&& !failed ==> forall|i: int| 0 <= i < events.len() ==> !(events[i] is ErrorText)
        }),
{
}

/// What is reported while the streams are read is pass-through and
/// progress only: completion, results and errors come at the end.
pub proof fn lemma_passed_through_is_live(origin: StreamOrigin, texts: Seq<Seq<char>>)
    ensures
        forall|i: int|
            0 <= i < passed_through(origin, texts).len() ==> {
                let event = #[trigger] passed_through(origin, texts)[i];
                event is Stdout || event is Stderr || event is Progress
            },
    decreases texts.len(),
{
    if texts.len() > 0 {
        lemma_passed_through_is_live(origin, texts.drop_last());
    }
}

/// In all that is reported for a run, completion is reported exactly once:
/// after every line has been passed through, and before any result or
/// error.
pub proof fn lemma_run_completes_once(
    primary_lines: Seq<Seq<char>>,
    secondary_lines: Seq<Seq<char>>,
    exit_ok: bool,
    context_path: Option<Seq<char>>,
)
    ensures
        ({
            let events = run_events(primary_lines, secondary_lines, exit_ok, context_path);
            let live = passed_through(StreamOrigin::Primary, primary_lines).len()
                + passed_through(StreamOrigin::Secondary, secondary_lines).len();
            &&& live < events.len()
            &&& events[live as int] == EventView::Done(exit_ok)
            &&& forall|i: int| 0 <= i < events.len() && i != live ==> !(events[i] is Done)
            &&& forall|i: int|
                0 <= i < live ==> events[i] is Stdout || events[i] is Stderr
                    || events[i] is Progress
            &&& forall|i: int|
                live < i < events.len() ==> events[i] is Result || events[i] is Error
                    || events[i] is ErrorText
        }),
{
    let first = passed_through(StreamOrigin::Primary, primary_lines);
    let second = passed_through(StreamOrigin::Secondary, secondary_lines);
    let state = StreamStateView::empty().drain(StreamOrigin::Primary, primary_lines).drain(
        StreamOrigin::Secondary,
        secondary_lines,
    );
    let last = state.outcome(exit_ok).events(context_path);
    let events = first + second + last;
    lemma_passed_through_is_live(StreamOrigin::Primary, primary_lines);
    lemma_passed_through_is_live(StreamOrigin::Secondary, secondary_lines);
    lemma_final_events(state, exit_ok, context_path);
    assert forall|i: int| 0 <= i < events.len() implies (if i < first.len() {
        events[i] == first[i]
    } else if i < first.len() + second.len() {
        events[i] == second[i - first.len()]
    } else {
        events[i] == last[i - first.len() - second.len()]
    }) by {}
}

/// A run that failed without a judgement leaves exactly one error, the
/// secondary text, where there is any, and is ambiguous where there is
/// none.
pub proof fn lemma_failure_without_judgement(
    state: StreamStateView,
    context_path: Option<Seq<char>>,
)
    requires
        state.verdict() is None,
    ensures
        state.secondary_text.len() > 0 ==> state.outcome(false).events(context_path) == seq![
            EventView::Done(false),
            EventView::ErrorText(state.secondary_text),
        ],
        state.secondary_text.len() == 0 ==> state.outcome(false).is_ambiguous()
            && state.outcome(false).events(context_path) == seq![EventView::Done(false)],
{
    let events = state.outcome(false).events(context_path);
    if state.secondary_text.len() > 0 {
        assert(events =~= seq![
            EventView::Done(false),
            EventView::ErrorText(state.secondary_text),
        ]);
    } else {
        assert(events =~= seq![EventView::Done(false)]);
    }
}

} // verus!
