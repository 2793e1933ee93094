//! Stack and span traces: captured once, carried unchanged, rendered late.
//!
//! Both are opaque to the library. Nothing is known of a capture but that
//! it returns; whether a trace was captured and what its text is are read
//! from the trace when a report is rendered.

use std::backtrace::{Backtrace, BacktraceStatus};
use tracing_error::{SpanTrace, SpanTraceStatus};
use vstd::prelude::*;

verus! {

/// `std::backtrace::Backtrace`, carried as a value that nothing looks into.
#[verifier::external_type_specification]
#[verifier::external_body]
pub struct ExBacktrace(std::backtrace::Backtrace);

/// `tracing_error::SpanTrace`, carried as a value that nothing looks into.
#[verifier::external_type_specification]
#[verifier::external_body]
pub struct ExSpanTrace(tracing_error::SpanTrace);

/// Calls `Backtrace::capture`. What comes back depends on the call stack
/// and on the process's environment, so nothing is claimed of it.
#[verifier::external_body]
pub(crate) fn capture_backtrace() -> (backtrace: Backtrace) {
    Backtrace::capture()
}

/// Calls `Backtrace::status` and tells whether it is `Captured`. Nothing is
/// claimed of the answer.
#[verifier::external_body]
pub(crate) fn backtrace_is_captured(backtrace: &Backtrace) -> (captured: bool) {
    match backtrace.status() {
        BacktraceStatus::Captured => true,
        _ => false,
    }
}

/// Formats a `Backtrace` with its `Display` impl. Nothing is claimed of the
/// text.
#[verifier::external_body]
pub(crate) fn backtrace_text(backtrace: &Backtrace) -> (text: String) {
    format!("{}", backtrace)
}

/// Calls `SpanTrace::capture`. What comes back depends on the span that is
/// current and on the subscriber, so nothing is claimed of it.
#[verifier::external_body]
pub(crate) fn capture_span_trace() -> (span_trace: SpanTrace) {
    SpanTrace::capture()
}

/// Calls `SpanTrace::status` and tells whether it is
/// `SpanTraceStatus::CAPTURED`. Nothing is claimed of the answer.
#[verifier::external_body]
pub(crate) fn span_trace_is_captured(span_trace: &SpanTrace) -> (captured: bool) {
    span_trace.status() == SpanTraceStatus::CAPTURED
}

/// Formats a `SpanTrace` with its `Display` impl. Nothing is claimed of the
/// text.
#[verifier::external_body]
pub(crate) fn span_trace_text(span_trace: &SpanTrace) -> (text: String) {
    format!("{}", span_trace)
}

} // verus!
