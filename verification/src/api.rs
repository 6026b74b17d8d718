//! The instrumentation-facing surface: identifiers, span contexts, spans,
//! contexts and the `Tracer` interface.
pub mod attribute;
pub mod context;
pub mod metrics;
pub mod time;
pub mod trace;

pub use attribute::{KeyValue, Value};
pub use context::{Context, ContextGuard, CurrentContext, GuardError, WithContext};
pub use trace::event::Event;
pub use trace::id_generator::IdGenerator;
pub use trace::link::Link;
pub use trace::sampler::{Sampler, SamplingDecision, SamplingResult};
pub use trace::span::{Span, SpanKind, StatusCode};
pub use trace::span_context::{SpanContext, SpanId, TraceId, TRACE_FLAG_SAMPLED};
pub use trace::trace_state::TraceState;
pub use trace::tracer::{SpanBuilder, Tracer};
