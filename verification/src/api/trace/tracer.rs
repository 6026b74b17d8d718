//! The interface that starts spans and makes them active, and the builder
//! that configures a span before it starts.
use crate::api::attribute::{attributes_view, clone_attributes, KeyValue, KeyValueView};
use crate::api::context::{
    Context,
    ContextGuard,
    ContextGuardView,
    ContextView,
    CurrentContext,
};
use crate::api::trace::construction::started_from;
use crate::api::trace::event::{clone_events, events_view, Event, EventView};
use crate::api::trace::link::{clone_links, links_view, Link, LinkView};
use crate::api::trace::sampler::{SamplingResult, SamplingResultView};
use crate::api::trace::span::{Span, SpanKind, SpanView, StatusCode};
use crate::api::trace::span_context::{SpanContext, SpanContextView, SpanId, TraceId};
use std::time::SystemTime;
use vstd::prelude::*;

verus! {

/// Interface for constructing `Span`s.
///
/// A tracer starts spans and makes them active. Starting a span never
/// changes which context is current; making it active does, for as long as
/// the guard of the activation is held.
pub trait Tracer {
    /// Returns a span with an invalid `SpanContext`. Used by functions that
    /// need to return a default span like `get_active_span` if no span is present.
    fn invalid(&self) -> (span: Span)
        ensures
            span@ == SpanView::invalid(),
    ;

    /// Starts a new `Span` with the given name and no other configuration.
    ///
    /// The active span of the current context of `cell`, if there is one,
    /// becomes the parent of the new span. The new span is not made active.
    fn start(&self, cell: &CurrentContext, name: &str) -> (span: Span)
        ensures
            started_from(SpanBuilderView::from_name(name@), cell@, span@),
    {
        self.start_from_context(name, cell.get())
    }

    /// Starts a new `Span` in a given context: the active span of `context`,
    /// if there is one, becomes the parent of the new span.
    fn start_from_context(&self, name: &str, context: &Context) -> (span: Span)
        ensures
            started_from(SpanBuilderView::from_name(name@), context@, span@),
    ;

    /// Creates a span builder
    ///
    /// An ergonomic way for attributes to be configured before the `Span` is started.
    fn span_builder(&self, name: &str) -> (builder: SpanBuilder)
        ensures
            builder@ == SpanBuilderView::from_name(name@),
    ;

    /// Create a span from a `SpanBuilder`, in the current context of `cell`.
    fn build(&self, cell: &CurrentContext, builder: SpanBuilder) -> (span: Span)
        ensures
            started_from(builder@, cell@, span@),
    {
        self.build_with_context(builder, cell.get())
    }

    /// Create a span from a `SpanBuilder`, in the given context.
    fn build_with_context(&self, builder: SpanBuilder, cx: &Context) -> (span: Span)
        ensures
            started_from(builder@, cx@, span@),
    ;

    /// Mark a given `Span` as active.
    ///
    /// The current context of `cell` becomes the context that is derived
    /// from it with `span` as its active span. The guard that comes back
    /// holds the context that was current until now; the caller owns the
    /// guard and releases it.
    #[must_use]
    fn mark_span_as_active(&self, cell: &mut CurrentContext, span: Span) -> (guard: ContextGuard)
        ensures
            final(cell)@ == old(cell)@.with_span(span@),
            guard@ == ContextGuardView::holding(old(cell)@),
    {
        let cx = Context::current_with_span(cell, span);
        cx.attach(cell)
    }

    /// Executes a closure with a reference to the active span of the current
    /// context of `cell`, or to the invalid span where there is none. The
    /// cell is only read.
    fn get_active_span<F, T>(&self, cell: &CurrentContext, f: F) -> (result: T) where
        F: FnOnce(&Span) -> T,
        Self: Sized,

        requires
            forall|span: &Span| span@ == cell@.span ==> #[trigger] f.requires((span,)),
        ensures
            exists|span: &Span| span@ == cell@.span && #[trigger] f.ensures((span,), result),
    {
        f(cell.get().span())
    }

    /// Start a new span and execute the given closure while the span is
    /// active.
    ///
    /// The closure gets the cell, in which the context with the new span is
    /// current, and that context. When the closure returns, the context
    /// that was current before the call is current again, whatever the
    /// closure did to the cell. The span is not ended. Should the closure
    /// panic, the cell stays as the closure left it.
    fn in_span<T, F>(&self, cell: &mut CurrentContext, name: &str, f: F) -> (result: T) where
        F: FnOnce(&mut CurrentContext, Context) -> T,
        Self: Sized,

        requires
            forall|inner: &mut CurrentContext, cx: Context|
                (*inner)@ == cx@ && cx@.previous == Some(Box::new(old(cell)@)) && started_from(
                    SpanBuilderView::from_name(name@),
                    old(cell)@,
                    cx@.span,
                ) ==> #[trigger] f.requires((inner, cx)),
        ensures
            final(cell)@ == old(cell)@,
            exists|inner: &mut CurrentContext, cx: Context|
                (*inner)@ == cx@ && cx@.previous == Some(Box::new(old(cell)@)) && started_from(
                    SpanBuilderView::from_name(name@),
                    old(cell)@,
                    cx@.span,
                ) && #[trigger] f.ensures((inner, cx), result),
    {
        let span = self.start(cell, name);
        self.with_span(cell, span, f)
    }

    /// Execute the given closure while the given span is active.
    ///
    /// The closure gets the cell, in which the context with `span` is
    /// current, and that context. When the closure returns, the context
    /// that was current before the call is current again, whatever the
    /// closure did to the cell. The span is not ended. Should the closure
    /// panic, the cell stays as the closure left it.
    fn with_span<T, F>(&self, cell: &mut CurrentContext, span: Span, f: F) -> (result: T) where
        F: FnOnce(&mut CurrentContext, Context) -> T,
        Self: Sized,

        requires
            forall|inner: &mut CurrentContext, cx: Context|
                (*inner)@ == cx@ && cx@ == old(cell)@.with_span(span@) ==> #[trigger] f.requires(
                    (inner, cx),
                ),
        ensures
            final(cell)@ == old(cell)@,
            exists|inner: &mut CurrentContext, cx: Context|
                (*inner)@ == cx@ && cx@ == old(cell)@.with_span(span@) && #[trigger] f.ensures(
                    (inner, cx),
                    result,
                ),
    {
        let cx = Context::current_with_span(cell, span);
        let mut guard = cx.clone().attach(cell);
        let result = f(cell, cx);
        let _ = guard.release(cell);
        result
    }
}

/// The configuration of a span that has not started yet. Every field but
/// the name is optional; what is left out takes the tracer's default when
/// the span starts.
#[derive(Debug, PartialEq)]
pub struct SpanBuilder {
    /// Parent `SpanContext`
    pub parent_context: Option<SpanContext>,
    /// Trace id, useful for integrations with external tracing systems.
    pub trace_id: Option<TraceId>,
    /// Span id, useful for integrations with external tracing systems.
    pub span_id: Option<SpanId>,
    /// Span kind
    pub span_kind: Option<SpanKind>,
    /// Span name
    pub name: String,
    /// Span start time
    pub start_time: Option<SystemTime>,
    /// Span end time
    pub end_time: Option<SystemTime>,
    /// Span attributes
    pub attributes: Option<Vec<KeyValue>>,
    /// Span Message events
    pub message_events: Option<Vec<Event>>,
    /// Span Links
    pub links: Option<Vec<Link>>,
    /// Span status code
    pub status_code: Option<StatusCode>,
    /// Span status message
    pub status_message: Option<String>,
    /// Sampling result
    pub sampling_result: Option<SamplingResult>,
}

/// The mathematical value of a [`SpanBuilder`].
pub struct SpanBuilderView {
    pub parent_context: Option<SpanContextView>,
    pub trace_id: Option<TraceId>,
    pub span_id: Option<SpanId>,
    pub span_kind: Option<SpanKind>,
    pub name: Seq<char>,
    pub start_time: Option<SystemTime>,
    pub end_time: Option<SystemTime>,
    pub attributes: Option<Seq<KeyValueView>>,
    pub message_events: Option<Seq<EventView>>,
    pub links: Option<Seq<LinkView>>,
    pub status_code: Option<StatusCode>,
    pub status_message: Option<Seq<char>>,
    pub sampling_result: Option<SamplingResultView>,
}

impl SpanBuilderView {
    /// The configuration that sets nothing but the name.
    pub open spec fn from_name(name: Seq<char>) -> SpanBuilderView {
        SpanBuilderView {
            parent_context: None,
            trace_id: None,
            span_id: None,
            span_kind: None,
            name,
            start_time: None,
            end_time: None,
            attributes: None,
            message_events: None,
            links: None,
            status_code: None,
            status_message: None,
            sampling_result: None,
        }
    }
}

impl View for SpanBuilder {
    type V = SpanBuilderView;

    open spec fn view(&self) -> SpanBuilderView {
        SpanBuilderView {
            parent_context: match self.parent_context {
                Some(context) => Some(context@),
                None => None,
            },
            trace_id: self.trace_id,
            span_id: self.span_id,
            span_kind: self.span_kind,
            name: self.name@,
            start_time: self.start_time,
            end_time: self.end_time,
            attributes: match self.attributes {
                Some(attributes) => Some(attributes_view(attributes@)),
                None => None,
            },
            message_events: match self.message_events {
                Some(events) => Some(events_view(events@)),
                None => None,
            },
            links: match self.links {
                Some(links) => Some(links_view(links@)),
                None => None,
            },
            status_code: self.status_code,
            status_message: match self.status_message {
                Some(message) => Some(message@),
                None => None,
            },
            sampling_result: match self.sampling_result {
                Some(result) => Some(result@),
                None => None,
            },
        }
    }
}

/// SpanBuilder methods
impl SpanBuilder {
    /// Create a new span builder from a span name
    pub fn from_name(name: String) -> (builder: SpanBuilder)
        ensures
            builder@ == SpanBuilderView::from_name(name@),
    {
        SpanBuilder {
            parent_context: None,
            trace_id: None,
            span_id: None,
            span_kind: None,
            name,
            start_time: None,
            end_time: None,
            attributes: None,
            message_events: None,
            links: None,
            status_code: None,
            status_message: None,
            sampling_result: None,
        }
    }

    /// Assign parent context
    pub fn with_parent(self, parent_context: SpanContext) -> (builder: SpanBuilder)
        ensures
            builder@ == (SpanBuilderView { parent_context: Some(parent_context@), ..self@ }),
    {
        SpanBuilder { parent_context: Some(parent_context), ..self }
    }

    /// Specify trace id to use if no parent context exists
    pub fn with_trace_id(self, trace_id: TraceId) -> (builder: SpanBuilder)
        ensures
            builder@ == (SpanBuilderView { trace_id: Some(trace_id), ..self@ }),
    {
        SpanBuilder { trace_id: Some(trace_id), ..self }
    }

    /// Assign span id
    pub fn with_span_id(self, span_id: SpanId) -> (builder: SpanBuilder)
        ensures
            builder@ == (SpanBuilderView { span_id: Some(span_id), ..self@ }),
    {
        SpanBuilder { span_id: Some(span_id), ..self }
    }

    /// Assign span kind
    pub fn with_kind(self, span_kind: SpanKind) -> (builder: SpanBuilder)
        ensures
            builder@ == (SpanBuilderView { span_kind: Some(span_kind), ..self@ }),
    {
        SpanBuilder { span_kind: Some(span_kind), ..self }
    }

    /// Assign span start time
    pub fn with_start_time(self, start_time: SystemTime) -> (builder: SpanBuilder)
        ensures
            builder@ == (SpanBuilderView { start_time: Some(start_time), ..self@ }),
    {
        SpanBuilder { start_time: Some(start_time), ..self }
    }

    /// Assign span end time
    pub fn with_end_time(self, end_time: SystemTime) -> (builder: SpanBuilder)
        ensures
            builder@ == (SpanBuilderView { end_time: Some(end_time), ..self@ }),
    {
        SpanBuilder { end_time: Some(end_time), ..self }
    }

    /// Assign span attributes
    pub fn with_attributes(self, attributes: Vec<KeyValue>) -> (builder: SpanBuilder)
        ensures
            builder@ == (SpanBuilderView {
                attributes: Some(attributes_view(attributes@)),
                ..self@
            }),
    {
        SpanBuilder { attributes: Some(attributes), ..self }
    }

    /// Assign message events
    pub fn with_message_events(self, message_events: Vec<Event>) -> (builder: SpanBuilder)
        ensures
            builder@ == (SpanBuilderView {
                message_events: Some(events_view(message_events@)),
                ..self@
            }),
    {
        SpanBuilder { message_events: Some(message_events), ..self }
    }

    /// Assign links
    pub fn with_links(self, links: Vec<Link>) -> (builder: SpanBuilder)
        ensures
            builder@ == (SpanBuilderView { links: Some(links_view(links@)), ..self@ }),
    {
        SpanBuilder { links: Some(links), ..self }
    }

    /// Assign status code
    pub fn with_status_code(self, code: StatusCode) -> (builder: SpanBuilder)
        ensures
            builder@ == (SpanBuilderView { status_code: Some(code), ..self@ }),
    {
        SpanBuilder { status_code: Some(code), ..self }
    }

    /// Assign status message
    pub fn with_status_message(self, message: String) -> (builder: SpanBuilder)
        ensures
            builder@ == (SpanBuilderView { status_message: Some(message@), ..self@ }),
    {
        SpanBuilder { status_message: Some(message), ..self }
    }

    /// Assign sampling result
    pub fn with_sampling_result(self, sampling_result: SamplingResult) -> (builder: SpanBuilder)
        ensures
            builder@ == (SpanBuilderView { sampling_result: Some(sampling_result@), ..self@ }),
    {
        SpanBuilder { sampling_result: Some(sampling_result), ..self }
    }

    /// Builds a span with the given tracer from this configuration, in the
    /// current context of `cell`.
    pub fn start<T: Tracer>(self, tracer: &T, cell: &CurrentContext) -> (span: Span)
        ensures
            started_from(self@, cell@, span@),
    {
        tracer.build(cell, self)
    }
}

impl Clone for SpanBuilder {
    fn clone(&self) -> (copy: SpanBuilder)
        ensures
            copy@ == self@,
    {
        SpanBuilder {
            parent_context: match &self.parent_context {
                Some(context) => Some(context.clone()),
                None => None,
            },
            trace_id: self.trace_id,
            span_id: self.span_id,
            span_kind: self.span_kind,
            name: self.name.clone(),
            start_time: self.start_time,
            end_time: self.end_time,
            attributes: match &self.attributes {
                Some(attributes) => Some(clone_attributes(attributes)),
                None => None,
            },
            message_events: match &self.message_events {
                Some(events) => Some(clone_events(events)),
                None => None,
            },
            links: match &self.links {
                Some(links) => Some(clone_links(links)),
                None => None,
            },
            status_code: self.status_code,
            status_message: match &self.status_message {
                Some(message) => Some(message.clone()),
                None => None,
            },
            sampling_result: match &self.sampling_result {
                Some(result) => Some(result.clone()),
                None => None,
            },
        }
    }
}

impl Default for SpanBuilder {
    fn default() -> (builder: SpanBuilder)
        ensures
            builder@ == SpanBuilderView::from_name(Seq::empty()),
    {
        SpanBuilder::from_name(String::new())
    }
}

} // verus!
