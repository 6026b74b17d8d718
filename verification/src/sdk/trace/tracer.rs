//! The tracer: resolves the parent of a new span, asks the sampler, merges
//! the builder with the defaults, and tells the span processor.
use crate::api::attribute::KeyValue;
use crate::api::context::Context;
use crate::api::trace::construction::{
    assemble_span,
    effective_verdict,
    needs_trace_id,
    parent_of,
    span_started,
};
use crate::api::trace::id_generator::IdGenerator;
use crate::api::trace::link::Link;
use crate::api::trace::sampler::{Sampler, SamplingResult};
use crate::api::trace::span::{Span, SpanKind};
use crate::api::trace::span_context::TraceId;
use crate::api::trace::tracer::SpanBuilder;
use crate::sdk::resource::Resource;
use crate::sdk::trace::span_processor::SpanProcessor;
use std::time::SystemTime;
use vstd::prelude::*;

verus! {

/// A tracer with its collaborators: the source of identifiers, the sampler,
/// the span processor, and the resource that it works for.
#[derive(Debug)]
pub struct Tracer<G: IdGenerator, S: Sampler, P: SpanProcessor> {
    id_generator: G,
    sampler: S,
    processor: P,
    resource: Resource,
}

impl<G: IdGenerator, S: Sampler, P: SpanProcessor> Tracer<G, S, P> {
    /// A tracer that works with the given collaborators.
    pub fn new(id_generator: G, sampler: S, processor: P, resource: Resource) -> (tracer: Self)
        ensures
            tracer.resource_view() == resource@,
    {
        Tracer { id_generator, sampler, processor, resource }
    }

    /// The mathematical value of the resource of this tracer.
    pub closed spec fn resource_view(&self) -> <Resource as View>::V {
        self.resource@
    }

    /// The resource that this tracer works for.
    pub fn resource(&self) -> (resource: &Resource)
        ensures
            resource@ == self.resource_view(),
    {
        &self.resource
    }

    /// Ends `span` at the end time it was configured with, or else now, and
    /// hands it to the span processor if this call ended it. Returns
    /// whether it did: a span that had ended before stays as it was and is
    /// not handed over again.
    pub fn end_span(&self, span: &mut Span) -> (first: bool)
        ensures
            exists|now: SystemTime|
                final(span)@ == old(span)@.ended_at(#[trigger] old(span)@.closing_time(now)),
            old(span)@.ended ==> final(span)@ == old(span)@,
            first == !old(span)@.ended,
    {
        let first = span.end();
        if first {
            self.processor.on_end(span);
        }
        first
    }

    /// Ends `span` at `timestamp` and hands it to the span processor if this
    /// call ended it. Returns whether it did.
    pub fn end_span_with_timestamp(&self, span: &mut Span, timestamp: SystemTime) -> (first: bool)
        ensures
            final(span)@ == old(span)@.ended_at(timestamp),
            first == !old(span)@.ended,
    {
        let first = span.end_with_timestamp(timestamp);
        if first {
            self.processor.on_end(span);
        }
        first
    }
}

impl<G: IdGenerator, S: Sampler, P: SpanProcessor> crate::api::trace::tracer::Tracer for Tracer<
    G,
    S,
    P,
> {
    fn invalid(&self) -> (span: Span) {
        Span::invalid()
    }

    fn start_from_context(&self, name: &str, context: &Context) -> (span: Span) {
        let builder = self.span_builder(name);
        self.build_with_context(builder, context)
    }

    fn span_builder(&self, name: &str) -> (builder: SpanBuilder) {
        SpanBuilder::from_name(name.to_owned())
    }

    fn build_with_context(&self, builder: SpanBuilder, cx: &Context) -> (span: Span) {
        let fresh_trace_id = if needs_trace_id(&builder, cx) {
            self.id_generator.new_trace_id()
        } else {
            TraceId::invalid()
        };
        let parent = parent_of(&builder, cx, fresh_trace_id);
        let span_id = self.id_generator.new_span_id();
        let trace_id = match &parent {
            Some(p) => p.trace_id(),
            None => fresh_trace_id,
        };
        let kind = match builder.span_kind {
            Some(kind) => kind,
            None => SpanKind::Internal,
        };
        let no_attributes: Vec<KeyValue> = Vec::new();
        let no_links: Vec<Link> = Vec::new();
        let verdict = match &builder.sampling_result {
            Some(given) => given.clone(),
            None => {
                let sampled = self.sampler.should_sample(
                    parent.as_ref(),
                    trace_id,
                    builder.name.as_str(),
                    kind,
                    match &builder.attributes {
                        Some(attributes) => attributes,
                        None => &no_attributes,
                    },
                    match &builder.links {
                        Some(links) => links,
                        None => &no_links,
                    },
                );
                SamplingResult {
                    decision: sampled.decision,
                    attributes: sampled.attributes,
                    trace_state: None,
                }
            },
        };
        let now = match builder.start_time {
            Some(configured) => configured,
            None => SystemTime::now(),
        };
        let parent_seen = match &parent {
            Some(p) => Some(p.clone()),
            None => None,
        };
        let ghost before = builder@;
        let ghost sampled_view = verdict@;
        let span = assemble_span(builder, parent, fresh_trace_id, span_id, verdict, now);
        assert(span@ == span_started(before, cx@, fresh_trace_id, span_id, sampled_view, now));
        self.processor.on_start(&span, parent_seen.as_ref());
        span
    }
}

} // verus!
