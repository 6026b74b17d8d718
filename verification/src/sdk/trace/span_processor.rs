//! The interface of the pipeline that is told when spans start and end.
use crate::api::trace::span::Span;
use crate::api::trace::span_context::SpanContext;
use vstd::prelude::*;

verus! {

/// The pipeline that takes spans over when they end. It is told of every
/// start and of every end; what it does with a span is its own concern.
pub trait SpanProcessor {
    /// Called when `span` has started, with its parent if it has one.
    fn on_start(&self, span: &Span, parent: Option<&SpanContext>);

    /// Called when `span` has ended, once for each span.
    fn on_end(&self, span: &Span);
}

} // verus!
