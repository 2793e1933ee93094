//! The report: the owned handle over a chain of frames.

use std::backtrace::Backtrace;
use tracing_error::SpanTrace;
use vstd::prelude::*;
use vstd::string::*;
use crate::frame::{ErrorType, Frame};
use crate::iter::{Chain, Request};
use crate::location::{Location, LocationView};
use crate::provider::Provider;
use crate::tags::{Payload, Ref, TypeTag, Value};
use crate::text::{decimal, render_decimal};
use crate::trace::{
    backtrace_is_captured,
    backtrace_text,
    capture_backtrace,
    capture_span_trace,
    span_trace_is_captured,
    span_trace_text,
};

verus! {

struct ReportImpl {
    error: Frame,
    backtrace: Backtrace,
    span_trace: SpanTrace,
}

/// A failure with everything that was attached to it on the way up: a
/// chain of at least one frame, newest first, and the stack and span
/// traces that were captured where the failure began.
#[must_use]
pub struct Report {
    inner: Box<ReportImpl>,
}

/// The line that says where a frame was attached.
pub open spec fn at_line(location: LocationView) -> Seq<char> {
    "\n             at "@ + location.rendered()
}

/// The two lines for one cause: its number and message, and its location.
pub open spec fn cause_line(frame: Frame, number: nat) -> Seq<char> {
    "\n   "@ + decimal(number) + ": "@ + frame.rendered() + at_line(frame.location@)
}

/// The lines for the frames of `frames` from position `from` on. The
/// frame at position 1 is cause number 0.
pub open spec fn cause_lines(frames: Seq<Frame>, from: int) -> Seq<char>
    decreases frames.len() - from,
{
    if 1 <= from < frames.len() {
        cause_line(frames[from], (from - 1) as nat) + cause_lines(frames, from + 1)
    } else {
        Seq::empty()
    }
}

/// The list of causes: nothing for a single frame, else a heading and the
/// lines of every frame after the newest, in the chain's order.
pub open spec fn causes_text(frames: Seq<Frame>) -> Seq<char> {
    if frames.len() > 1 {
        "\n\nCaused by:"@ + cause_lines(frames, 1)
    } else {
        Seq::empty()
    }
}

/// A trace under its heading, or nothing where there is no trace to show.
pub open spec fn trace_text(heading: Seq<char>, trace: Option<Seq<char>>) -> Seq<char> {
    match trace {
        Some(trace) => heading + trace,
        None => Seq::empty(),
    }
}

/// The newest message, followed by its direct cause's where there is one.
pub open spec fn summary_text(frames: Seq<Frame>) -> Seq<char>
    recommends
        frames.len() >= 1,
{
    if frames.len() > 1 {
        frames[0].rendered() + ": "@ + frames[1].rendered()
    } else {
        frames[0].rendered()
    }
}

/// The full text of a report: the newest message and its location, the
/// list of causes, then the stack trace and the span trace, each only
/// where there is one to show.
pub open spec fn debug_text(
    frames: Seq<Frame>,
    backtrace: Option<Seq<char>>,
    span_trace: Option<Seq<char>>,
) -> Seq<char>
    recommends
        frames.len() >= 1,
{
    frames[0].rendered() + at_line(frames[0].location@) + causes_text(frames) + trace_text(
        "\n\nStack backtrace:\n"@,
        backtrace,
    ) + trace_text("\n\nSpan trace:\n"@, span_trace)
}

/// The text of a trace as far as it is shown: the text, if the trace was
/// captured, and nothing otherwise.
pub open spec fn shown_if(captured: bool, text: Seq<char>) -> Option<Seq<char>> {
    if captured {
        Some(text)
    } else {
        None
    }
}

/// The characters of a text that may be absent.
pub open spec fn text_of(text: Option<&str>) -> Option<Seq<char>> {
    match text {
        Some(text) => Some(text@),
        None => None,
    }
}

/// Whether `next` is `previous` with one frame added on top, whatever the
/// frame holds.
pub open spec fn wrapped_once(previous: Report, next: Report) -> bool {
    exists|error: ErrorType, location: Location| #[trigger]
        next.extends(previous, error, location)
}

/// Whether `next` is `previous` with one frame added on top that holds a
/// message.
pub open spec fn given_context(previous: Report, next: Report) -> bool {
    exists|context: String, location: Location| #[trigger]
        next.extends(previous, ErrorType::Message(context), location)
}

/// Whether the report at position `i + 1` of `history` is the one at
/// position `i` with one frame added on top.
pub open spec fn is_step(history: Seq<Report>, i: int) -> bool {
    wrapped_once(history[i], history[i + 1])
}

/// Whether each report of `history` after the first is the one before it
/// with one frame added on top.
pub open spec fn is_history(history: Seq<Report>) -> bool {
    forall|i: int| 0 <= i < history.len() - 1 ==> #[trigger] is_step(history, i)
}

proof fn lemma_history_prefix(history: Seq<Report>)
    requires
        history.len() >= 2,
        is_history(history),
    ensures
        is_history(history.drop_last()),
        wrapped_once(history.drop_last().last(), history.last()),
{
    let earlier = history.drop_last();
    assert forall|i: int| 0 <= i < earlier.len() - 1 implies #[trigger] is_step(earlier, i) by {
        assert(is_step(history, i));
    }
    assert(is_step(history, history.len() - 2));
}

/// Wrapping keeps the traces: however many frames were added since, a
/// report carries the stack trace and the span trace of the report it
/// began as.
pub proof fn lemma_history_keeps_traces(history: Seq<Report>)
    requires
        history.len() >= 1,
        is_history(history),
    ensures
        history.last().captured_backtrace() == history[0].captured_backtrace(),
        history.last().captured_span_trace() == history[0].captured_span_trace(),
    decreases history.len(),
{
    if history.len() > 1 {
        lemma_history_prefix(history);
        lemma_history_keeps_traces(history.drop_last());
    }
}

/// Each wrap adds exactly one frame on top: after any number of wraps the
/// chain is finite, holds one frame per wrap more than it began with, lists
/// the added frames newest first, and ends with the frames it began with.
pub proof fn lemma_history_grows_chain(history: Seq<Report>)
    requires
        history.len() >= 1,
        is_history(history),
    ensures
        history.last().frames().len() == history[0].frames().len() + history.len() - 1,
        forall|i: int|
            0 <= i < history.len() ==> (#[trigger] history.last().frames()[i])
                == history[history.len() - 1 - i].head(),
        history.last().frames().skip(history.len() - 1) == history[0].frames(),
    decreases history.len(),
{
    let newest = history.last();
    newest.head().lemma_lineage();
    if history.len() == 1 {
        assert(newest.frames().skip(0) =~= newest.frames());
    } else {
        let earlier = history.drop_last();
        lemma_history_prefix(history);
        lemma_history_grows_chain(earlier);
        let previous = earlier.last();
        assert(newest.frames().drop_first() == previous.frames());
        assert forall|i: int| 0 <= i < history.len() implies (#[trigger] newest.frames()[i])
            == history[history.len() - 1 - i].head() by {
            if i > 0 {
                assert(newest.frames()[i] == previous.frames()[i - 1]);
                assert(earlier[earlier.len() - 1 - (i - 1)] == history[history.len() - 1 - i]);
            }
        }
        assert(newest.frames().skip(history.len() - 1) =~= previous.frames().skip(
            earlier.len() - 1,
        ));
    }
}

/// A report that began as the single message `first` and was given one or
/// more contexts since has one frame per context and one more, and its
/// last, oldest frame still shows `first`.
pub proof fn lemma_contexts_keep_first_message(
    history: Seq<Report>,
    first: String,
    origin: Location,
)
    requires
        history.len() >= 2,
        history[0].begins(ErrorType::Message(first), origin),
        forall|i: int|
            0 <= i < history.len() - 1 ==> #[trigger] given_context(history[i], history[i + 1]),
    ensures
        history.last().frames().len() == history.len(),
        forall|i: int|
            0 <= i < history.len() ==> (#[trigger] history.last().frames()[i])
                == history[history.len() - 1 - i].head(),
        history.last().frames().last().rendered() == first@,
        history.last().frames().last().location == origin,
{
    assert forall|i: int| 0 <= i < history.len() - 1 implies #[trigger] is_step(history, i) by {
        assert(given_context(history[i], history[i + 1]));
        let (context, location) = choose|context: String, location: Location| #[trigger]
            history[i + 1].extends(history[i], ErrorType::Message(context), location);
        assert(history[i + 1].extends(history[i], ErrorType::Message(context), location));
    }
    lemma_history_grows_chain(history);
    history[0].head().lemma_lineage();
    let frames = history.last().frames();
    assert(frames[history.len() - 1] == history[0].head());
}

impl Report {
    /// The newest frame.
    pub closed spec fn head(&self) -> Frame {
        self.inner.error
    }

    /// The stack trace that the report carries.
    pub closed spec fn captured_backtrace(&self) -> Backtrace {
        self.inner.backtrace
    }

    /// The span trace that the report carries.
    pub closed spec fn captured_span_trace(&self) -> SpanTrace {
        self.inner.span_trace
    }

    /// The report's frames, newest first. There is always at least one.
    pub open spec fn frames(&self) -> Seq<Frame> {
        self.head().lineage()
    }

    /// A report is never empty: its chain begins with its newest frame.
    pub proof fn lemma_never_empty(&self)
        ensures
            self.frames().len() >= 1,
            self.frames()[0] == self.head(),
    {
        self.head().lemma_lineage();
    }

    /// Whether this report is a single frame that holds `error` and
    /// `location`.
    pub open spec fn begins(&self, error: ErrorType, location: Location) -> bool {
        self.head() == (Frame { error, location, source: None })
    }

    /// Whether this report is a single frame that carries `provider` and
    /// `location`.
    pub open spec fn begins_with<P: Provider + Send + Sync + 'static>(
        &self,
        provider: P,
        location: Location,
    ) -> bool {
        self.head().error.attaches(provider) && self.begins(self.head().error, location)
    }

    /// Whether this report is `previous` with one frame added on top
    /// that carries `provider` and `location`; the traces are the ones
    /// that `previous` carried.
    pub open spec fn extends_with<P: Provider + Send + Sync + 'static>(
        &self,
        previous: Report,
        provider: P,
        location: Location,
    ) -> bool {
        self.head().error.attaches(provider) && self.extends(
            previous,
            self.head().error,
            location,
        )
    }

    /// Whether this report is `previous` with one frame added on top: the
    /// new frame holds `error` and `location`, its source is the frame
    /// that was newest before, and both traces are the ones that
    /// `previous` carried.
    pub open spec fn extends(&self, previous: Report, error: ErrorType, location: Location) -> bool {
        &&& self.head() == (Frame { error, location, source: Some(Box::new(previous.head())) })
        &&& self.captured_backtrace() == previous.captured_backtrace()
        &&& self.captured_span_trace() == previous.captured_span_trace()
    }

    fn new(backtrace: Backtrace, error: ErrorType, location: Location) -> (report: Report)
        ensures
            report.begins(error, location),
            report.captured_backtrace() == backtrace,
    {
        Report {
            inner: Box::new(
                ReportImpl {
                    error: Frame::leaf(error, location),
                    backtrace,
                    span_trace: capture_span_trace(),
                },
            ),
        }
    }

    /// A report of one frame that holds `message`, attached at `location`.
    /// The stack and span traces are captured here.
    pub fn from_message(message: String, location: Location) -> (report: Report)
        ensures
            report.begins(ErrorType::Message(message), location),
    {
        Report::new(capture_backtrace(), ErrorType::Message(message), location)
    }

    /// A report of one frame that holds an error defined elsewhere,
    /// attached at `location`. The error is kept as the message that it
    /// displays. The stack and span traces are captured here.
    pub fn from_error<E: core::fmt::Display + Send + Sync + 'static>(
        error: E,
        location: Location,
    ) -> (report: Report)
        ensures
            exists|message: String| #[trigger]
                to_string_from_display_ensures::<E>(&error, message) && report.begins(
                    ErrorType::Error(message),
                    location,
                ),
    {
        let message = error.to_string();
        let report = Report::from_displayed_error(message, location);
        assert(to_string_from_display_ensures::<E>(&error, message) && report.begins(
            ErrorType::Error(message),
            location,
        ));
        report
    }

    /// A report of one frame that holds `message`, the text that an error
    /// defined elsewhere displays, attached at `location`. The stack and
    /// span traces are captured here.
    pub fn from_displayed_error(message: String, location: Location) -> (report: Report)
        ensures
            report.begins(ErrorType::Error(message), location),
    {
        Report::new(capture_backtrace(), ErrorType::Error(message), location)
    }

    /// A report of one frame that holds `provider`, attached at
    /// `location`. The stack and span traces are captured here.
    pub fn from_provider<P: Provider + Send + Sync + 'static>(
        provider: P,
        location: Location,
    ) -> (report: Report)
        ensures
            report.begins_with(provider, location),
    {
        Report::new(capture_backtrace(), ErrorType::provider(provider), location)
    }

    fn wrap(self, error: ErrorType, location: Location) -> (report: Report)
        ensures
            report.extends(self, error, location),
    {
        let inner = *self.inner;
        Report {
            inner: Box::new(
                ReportImpl {
                    error: Frame::wrap(error, location, inner.error),
                    backtrace: inner.backtrace,
                    span_trace: inner.span_trace,
                },
            ),
        }
    }

    /// Adds a frame that holds the message `context`, attached at
    /// `location`. The frame that was newest becomes its source; the
    /// traces are kept.
    pub fn context(self, context: String, location: Location) -> (report: Report)
        ensures
            report.extends(self, ErrorType::Message(context), location),
    {
        self.wrap(ErrorType::Message(context), location)
    }

    /// Adds a frame that holds `provider`, attached at `location`. The
    /// frame that was newest becomes its source; the traces are kept.
    pub fn provide<P: Provider + Send + Sync + 'static>(
        self,
        provider: P,
        location: Location,
    ) -> (report: Report)
        ensures
            report.extends_with(self, provider, location),
    {
        self.wrap(ErrorType::provider(provider), location)
    }

    /// The stack trace that was captured where the report began.
    pub fn backtrace(&self) -> (backtrace: &Backtrace)
        ensures
            *backtrace == self.captured_backtrace(),
    {
        &self.inner.backtrace
    }

    /// The span trace that was captured where the report began.
    pub fn span_trace(&self) -> (span_trace: &SpanTrace)
        ensures
            *span_trace == self.captured_span_trace(),
    {
        &self.inner.span_trace
    }

    /// The report's frames, newest first.
    pub fn chain(&self) -> (chain: Chain<'_>)
        ensures
            chain@ == self.frames(),
    {
        Chain::new(&self.inner.error)
    }

    /// The answers of the report's frames to a request for the tag `I`,
    /// newest first.
    pub fn request<'p, I: TypeTag<'p>>(&'p self) -> (request: Request<'p, I>)
        ensures
            request@ == self.frames(),
    {
        Request::new(self.chain())
    }

    /// The references to a `T` that the report's frames offer, newest
    /// first.
    pub fn request_ref<T: Payload>(&self) -> (request: Request<'_, Ref<T>>)
        ensures
            request@ == self.frames(),
    {
        Request::new(self.chain())
    }

    /// The `T`s that the report's frames offer, newest first.
    pub fn request_value<T: Payload>(&self) -> (request: Request<'_, Value<T>>)
        ensures
            request@ == self.frames(),
    {
        Request::new(self.chain())
    }

    /// The short form: the newest frame's message.
    pub fn display(&self) -> (text: String)
        ensures
            text@ == self.frames()[0].rendered(),
    {
        proof {
            self.lemma_never_empty();
        }
        self.inner.error.message()
    }

    /// The summary form: the newest frame's message and, after `": "`,
    /// the message of its direct cause where it has one.
    pub fn display_alternate(&self) -> (text: String)
        ensures
            text@ == summary_text(self.frames()),
    {
        proof {
            self.head().lemma_lineage();
        }
        let head = &self.inner.error;
        let mut text = head.message();
        match head.source() {
            Some(cause) => {
                proof {
                    cause.lemma_lineage();
                }
                text.append(": ");
                let message = cause.message();
                text.append(message.as_str());
            },
            None => {},
        }
        text
    }

    /// The full form, with the given texts for the two traces: the newest
    /// message and its location, the numbered list of causes with their
    /// locations, and each trace that is given under its heading.
    pub fn debug_with(&self, backtrace: Option<&str>, span_trace: Option<&str>) -> (text: String)
        ensures
            text@ == debug_text(self.frames(), text_of(backtrace), text_of(span_trace)),
    {
        let frames = self.chain().collect();
        proof {
            self.head().lemma_lineage();
        }
        let ghost all = self.frames();
        let mut text = frames[0].message();
        text.append("\n             at ");
        let place = frames[0].location().render();
        text.append(place.as_str());
        let ghost top = text@;
        assert(top == all[0].rendered() + at_line(all[0].location@));
        if frames.len() > 1 {
            text.append("\n\nCaused by:");
        }
        let mut i: usize = 1;
        while i < frames.len()
            invariant
                1 <= i <= frames@.len(),
                frames@.len() == all.len(),
                forall|k: int| 0 <= k < frames@.len() ==> *frames@[k] == all[k],
                text@ + cause_lines(all, i as int) == top + causes_text(all),
            decreases frames@.len() - i,
        {
            let ghost before = text@;
            let frame = frames[i];
            text.append("\n   ");
            let number = render_decimal((i - 1) as u64);
            text.append(number.as_str());
            text.append(": ");
            let message = frame.message();
            text.append(message.as_str());
            text.append("\n             at ");
            let place = frame.location().render();
            text.append(place.as_str());
            proof {
                assert(text@ =~= before + cause_line(all[i as int], (i - 1) as nat));
                assert(before + (cause_line(all[i as int], (i - 1) as nat) + cause_lines(
                    all,
                    i + 1,
                )) =~= before + cause_line(all[i as int], (i - 1) as nat) + cause_lines(all, i + 1));
            }
            i += 1;
        }
        assert(text@ =~= top + causes_text(all));
        match backtrace {
            Some(trace) => {
                text.append("\n\nStack backtrace:\n");
                text.append(trace);
            },
            None => {},
        }
        assert(text@ =~= top + causes_text(all) + trace_text(
            "\n\nStack backtrace:\n"@,
            text_of(backtrace),
        ));
        match span_trace {
            Some(trace) => {
                text.append("\n\nSpan trace:\n");
                text.append(trace);
            },
            None => {},
        }
        assert(text@ =~= debug_text(all, text_of(backtrace), text_of(span_trace)));
        text
    }

    /// The full form, given what each trace reports of itself: the newest
    /// message and its location, the numbered list of causes with their
    /// locations, and then each trace under its heading if, and only if,
    /// it was captured.
    pub fn debug_given(
        &self,
        backtrace_captured: bool,
        backtrace: &str,
        span_trace_captured: bool,
        span_trace: &str,
    ) -> (text: String)
        ensures
            text@ == debug_text(
                self.frames(),
                shown_if(backtrace_captured, backtrace@),
                shown_if(span_trace_captured, span_trace@),
            ),
    {
        let backtrace = if backtrace_captured {
            Some(backtrace)
        } else {
            None
        };
        let span_trace = if span_trace_captured {
            Some(span_trace)
        } else {
            None
        };
        self.debug_with(backtrace, span_trace)
    }

    /// The full form. Each trace is asked whether it was captured and for
    /// its text, and the answers go to [`Report::debug_given`] as they
    /// came.
    pub fn debug(&self) -> (text: String)
        ensures
            exists|
                backtrace_captured: bool,
                backtrace: Seq<char>,
                span_trace_captured: bool,
                span_trace: Seq<char>,
            |
                text@ == #[trigger] debug_text(
                    self.frames(),
                    shown_if(backtrace_captured, backtrace),
                    shown_if(span_trace_captured, span_trace),
                ),
    {
        let backtrace_captured = backtrace_is_captured(&self.inner.backtrace);
        let backtrace = backtrace_text(&self.inner.backtrace);
        let span_trace_captured = span_trace_is_captured(&self.inner.span_trace);
        let span_trace = span_trace_text(&self.inner.span_trace);
        self.debug_given(
            backtrace_captured,
            backtrace.as_str(),
            span_trace_captured,
            span_trace.as_str(),
        )
    }
}

} // verus!
