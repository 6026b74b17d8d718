//! The tracer that implements the tracing interface, with its collaborators,
//! and the configuration of the metrics accumulator.
pub mod export;
pub mod metrics;
pub mod resource;
pub mod trace;

pub use resource::Resource;
pub use trace::span_processor::SpanProcessor;
pub use trace::tracer::Tracer;
