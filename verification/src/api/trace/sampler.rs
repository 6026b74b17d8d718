//! The sampling verdict and the interface of the policy that gives it.
use crate::api::attribute::{attributes_view, clone_attributes, KeyValue, KeyValueView};
use crate::api::trace::link::Link;
use crate::api::trace::span::SpanKind;
use crate::api::trace::span_context::{SpanContext, TraceId};
use crate::api::trace::trace_state::{TraceState, TraceStateView};
use vstd::prelude::*;

verus! {

/// What is to be done with a span.
#[derive(Clone, Copy, Debug, PartialEq, Eq, Structural)]
pub enum SamplingDecision {
    /// The span records nothing and is not sampled.
    NotRecord,
    /// The span records, but is not sampled.
    Record,
    /// The span records and is sampled.
    RecordAndSampled,
}

/// A sampling verdict.
#[derive(Debug, PartialEq)]
pub struct SamplingResult {
    /// What is to be done with the span.
    pub decision: SamplingDecision,
    /// Attributes to add to the span, after its own.
    pub attributes: Vec<KeyValue>,
    /// A trace state for the span to take in place of the inherited one.
    /// It counts in a verdict that is set in the builder of the span; in a
    /// verdict that a sampler returns it is passed over.
    pub trace_state: Option<TraceState>,
}

/// The mathematical value of a [`SamplingResult`].
pub struct SamplingResultView {
    pub decision: SamplingDecision,
    pub attributes: Seq<KeyValueView>,
    pub trace_state: Option<TraceStateView>,
}

impl SamplingResultView {
    /// The verdict with its trace state removed.
    pub open spec fn without_trace_state(self) -> SamplingResultView {
        SamplingResultView { trace_state: None, ..self }
    }
}

impl View for SamplingResult {
    type V = SamplingResultView;

    open spec fn view(&self) -> SamplingResultView {
        SamplingResultView {
            decision: self.decision,
            attributes: attributes_view(self.attributes@),
            trace_state: match self.trace_state {
                Some(state) => Some(state@),
                None => None,
            },
        }
    }
}

impl Clone for SamplingResult {
    fn clone(&self) -> (copy: SamplingResult)
        ensures
            copy@ == self@,
    {
        SamplingResult {
            decision: self.decision,
            attributes: clone_attributes(&self.attributes),
            trace_state: match &self.trace_state {
                Some(state) => Some(state.clone()),
                None => None,
            },
        }
    }
}

/// The policy that decides whether a span is recorded and sampled.
///
/// A tracer takes every verdict as it is given.
pub trait Sampler {
    /// The verdict for a span that is about to start: under `parent`, if it
    /// has one, in the trace `trace_id`, with the given name, kind,
    /// attributes and links.
    fn should_sample(
        &self,
        parent: Option<&SpanContext>,
        trace_id: TraceId,
        name: &str,
        span_kind: SpanKind,
        attributes: &Vec<KeyValue>,
        links: &Vec<Link>,
    ) -> SamplingResult;
}

} // verus!
