//! The tracer and the interface of the pipeline that takes its spans.
pub mod span_processor;
pub mod tracer;
