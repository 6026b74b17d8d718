//! Spans, their identity, and the interface that creates and activates them.
pub mod construction;
pub mod event;
pub mod id_generator;
pub mod link;
pub mod sampler;
pub mod span;
pub mod span_context;
pub mod trace_state;
pub mod tracer;
