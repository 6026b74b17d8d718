//! The identity of a span: trace id, span id, flags and trace state.
use crate::api::trace::trace_state::{TraceState, TraceStateView};
use vstd::prelude::*;

verus! {

/// Bit of `trace_flags` that marks a span as sampled.
pub const TRACE_FLAG_SAMPLED: u8 = 0x01;

/// A 128-bit trace identifier. All zero means "invalid".
#[derive(Clone, Copy, Debug, PartialEq, Eq, Hash, Structural)]
pub struct TraceId(pub u128);

impl TraceId {
    /// Whether the identifier is anything but the all-zero sentinel.
    pub open spec fn valid(self) -> bool {
        self.0 != 0
    }

    /// The all-zero sentinel.
    pub fn invalid() -> (id: TraceId)
        ensures
            id == TraceId(0),
            !id.valid(),
    {
        TraceId(0)
    }

    /// Wraps a 128-bit value.
    pub fn from_u128(value: u128) -> (id: TraceId)
        ensures
            id == TraceId(value),
    {
        TraceId(value)
    }

    /// The 128-bit value.
    pub fn to_u128(self) -> (value: u128)
        ensures
            value == self.0,
    {
        self.0
    }

    /// Whether the identifier is anything but the all-zero sentinel.
    pub fn is_valid(&self) -> (ok: bool)
        ensures
            ok == self.valid(),
    {
        self.0 != 0
    }
}

/// A 64-bit span identifier. All zero means "invalid".
#[derive(Clone, Copy, Debug, PartialEq, Eq, Hash, Structural)]
pub struct SpanId(pub u64);

impl SpanId {
    /// Whether the identifier is anything but the all-zero sentinel.
    pub open spec fn valid(self) -> bool {
        self.0 != 0
    }

    /// The all-zero sentinel.
    pub fn invalid() -> (id: SpanId)
        ensures
            id == SpanId(0),
            !id.valid(),
    {
        SpanId(0)
    }

    /// Wraps a 64-bit value.
    pub fn from_u64(value: u64) -> (id: SpanId)
        ensures
            id == SpanId(value),
    {
        SpanId(value)
    }

    /// The 64-bit value.
    pub fn to_u64(self) -> (value: u64)
        ensures
            value == self.0,
    {
        self.0
    }

    /// Whether the identifier is anything but the all-zero sentinel.
    pub fn is_valid(&self) -> (ok: bool)
        ensures
            ok == self.valid(),
    {
        self.0 != 0
    }
}

/// The mathematical value of a [`SpanContext`].
pub struct SpanContextView {
    pub trace_id: TraceId,
    pub span_id: SpanId,
    pub trace_flags: u8,
    pub is_remote: bool,
    pub trace_state: TraceStateView,
}

impl SpanContextView {
    /// The context that stands for "no span": all-zero identifiers, no flag
    /// set, not remote, no trace state.
    pub open spec fn invalid() -> SpanContextView {
        SpanContextView {
            trace_id: TraceId(0),
            span_id: SpanId(0),
            trace_flags: 0,
            is_remote: false,
            trace_state: TraceStateView::empty(),
        }
    }

    /// Whether both identifiers are valid.
    pub open spec fn valid(self) -> bool {
        self.trace_id.valid() && self.span_id.valid()
    }

    /// Whether the sampled flag is set.
    pub open spec fn sampled(self) -> bool {
        self.trace_flags & TRACE_FLAG_SAMPLED == TRACE_FLAG_SAMPLED
    }
}

/// The externally visible identity of a span. A value never changes after it
/// has been made.
#[derive(Debug, PartialEq, Eq)]
pub struct SpanContext {
    trace_id: TraceId,
    span_id: SpanId,
    trace_flags: u8,
    is_remote: bool,
    trace_state: TraceState,
}

impl View for SpanContext {
    type V = SpanContextView;

    closed spec fn view(&self) -> SpanContextView {
        SpanContextView {
            trace_id: self.trace_id,
            span_id: self.span_id,
            trace_flags: self.trace_flags,
            is_remote: self.is_remote,
            trace_state: self.trace_state@,
        }
    }
}

impl SpanContext {
    /// A context made of the given parts.
    pub fn new(
        trace_id: TraceId,
        span_id: SpanId,
        trace_flags: u8,
        is_remote: bool,
        trace_state: TraceState,
    ) -> (context: SpanContext)
        ensures
            context@ == (SpanContextView {
                trace_id,
                span_id,
                trace_flags,
                is_remote,
                trace_state: trace_state@,
            }),
    {
        SpanContext { trace_id, span_id, trace_flags, is_remote, trace_state }
    }

    /// The context that stands for "no span".
    pub fn empty_context() -> (context: SpanContext)
        ensures
            context@ == SpanContextView::invalid(),
            !context@.valid(),
    {
        SpanContext::new(TraceId::invalid(), SpanId::invalid(), 0, false, TraceState::new())
    }

    /// The trace that the span belongs to.
    pub fn trace_id(&self) -> (id: TraceId)
        ensures
            id == self@.trace_id,
    {
        self.trace_id
    }

    /// The span's own identifier.
    pub fn span_id(&self) -> (id: SpanId)
        ensures
            id == self@.span_id,
    {
        self.span_id
    }

    /// The flags, of which [`TRACE_FLAG_SAMPLED`] is one bit.
    pub fn trace_flags(&self) -> (flags: u8)
        ensures
            flags == self@.trace_flags,
    {
        self.trace_flags
    }

    /// The trace state.
    pub fn trace_state(&self) -> (state: &TraceState)
        ensures
            state@ == self@.trace_state,
    {
        &self.trace_state
    }

    /// Whether both identifiers are valid.
    pub fn is_valid(&self) -> (ok: bool)
        ensures
            ok == self@.valid(),
    {
        self.trace_id.is_valid() && self.span_id.is_valid()
    }

    /// Whether the context came from another process.
    pub fn is_remote(&self) -> (remote: bool)
        ensures
            remote == self@.is_remote,
    {
        self.is_remote
    }

    /// Whether the sampled flag is set.
    pub fn is_sampled(&self) -> (sampled: bool)
        ensures
            sampled == self@.sampled(),
    {
        (self.trace_flags & TRACE_FLAG_SAMPLED) == TRACE_FLAG_SAMPLED
    }
}

impl Clone for SpanContext {
    fn clone(&self) -> (copy: SpanContext)
        ensures
            copy@ == self@,
    {
        SpanContext {
            trace_id: self.trace_id,
            span_id: self.span_id,
            trace_flags: self.trace_flags,
            is_remote: self.is_remote,
            trace_state: self.trace_state.clone(),
        }
    }
}

} // verus!
