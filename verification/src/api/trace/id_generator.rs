//! The interface of the source of fresh identifiers.
use crate::api::trace::span_context::{SpanId, TraceId};
use vstd::prelude::*;

verus! {

/// A source of trace and span identifiers.
///
/// Nothing is assumed about the identifiers: the tracer uses whatever comes
/// back.
pub trait IdGenerator {
    /// An identifier for a new trace.
    fn new_trace_id(&self) -> TraceId;

    /// An identifier for a new span.
    fn new_span_id(&self) -> SpanId;
}

} // verus!
