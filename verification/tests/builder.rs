use opentelemetry::api::attribute::{KeyValue, Value};
use opentelemetry::api::context::Context;
use opentelemetry::api::trace::construction::{assemble_span, needs_trace_id, parent_of};
use opentelemetry::api::trace::event::Event;
use opentelemetry::api::trace::link::Link;
use opentelemetry::api::trace::sampler::{SamplingDecision, SamplingResult};
use opentelemetry::api::trace::span::{Span, SpanKind, StatusCode};
use opentelemetry::api::trace::span_context::{SpanContext, SpanId, TraceId};
use opentelemetry::api::trace::trace_state::TraceState;
use opentelemetry::api::trace::tracer::SpanBuilder;
use std::time::{Duration, SystemTime, UNIX_EPOCH};

fn at(seconds: u64) -> SystemTime {
    UNIX_EPOCH + Duration::from_secs(seconds)
}

fn attribute(key: &str, value: i64) -> KeyValue {
    KeyValue::new(key.to_string(), Value::I64(value))
}

fn state(key: &str, value: &str) -> TraceState {
    let mut state = TraceState::new();
    state.insert(key.to_string(), value.to_string());
    state
}

fn context(trace: u128, span: u64) -> SpanContext {
    SpanContext::new(TraceId::from_u128(trace), SpanId::from_u64(span), 0, false, TraceState::new())
}

fn bare(name: &str) -> SpanBuilder {
    SpanBuilder {
        parent_context: None,
        trace_id: None,
        span_id: None,
        span_kind: None,
        name: name.to_string(),
        start_time: None,
        end_time: None,
        attributes: None,
        message_events: None,
        links: None,
        status_code: None,
        status_message: None,
        sampling_result: None,
    }
}

fn verdict(decision: SamplingDecision) -> SamplingResult {
    SamplingResult { decision, attributes: Vec::new(), trace_state: None }
}

fn active(trace: u128, span: u64) -> Context {
    Context::new().with_span(Span::started(
        SpanContext::new(
            TraceId::from_u128(trace),
            SpanId::from_u64(span),
            1,
            false,
            state("k", "ambient"),
        ),
        SpanId::invalid(),
        SpanKind::Internal,
        "ambient".to_string(),
        at(1),
        None,
        Vec::new(),
        Vec::new(),
        Vec::new(),
        StatusCode::OK,
        String::new(),
        true,
    ))
}

#[test]
fn from_name_sets_only_the_name() {
    assert_eq!(SpanBuilder::from_name("n".to_string()), bare("n"));
    assert_eq!(SpanBuilder::default(), bare(""));
}

#[test]
fn with_parent_sets_the_parent_context() {
    let built = SpanBuilder::from_name("n".to_string()).with_parent(context(1, 2));
    assert_eq!(built, SpanBuilder { parent_context: Some(context(1, 2)), ..bare("n") });
}

#[test]
fn with_trace_id_sets_the_trace_id() {
    let built = SpanBuilder::from_name("n".to_string()).with_trace_id(TraceId::from_u128(3));
    assert_eq!(built, SpanBuilder { trace_id: Some(TraceId::from_u128(3)), ..bare("n") });
}

#[test]
fn with_span_id_sets_the_span_id() {
    let built = SpanBuilder::from_name("n".to_string()).with_span_id(SpanId::from_u64(4));
    assert_eq!(built, SpanBuilder { span_id: Some(SpanId::from_u64(4)), ..bare("n") });
}

#[test]
fn with_kind_sets_the_kind() {
    let built = SpanBuilder::from_name("n".to_string()).with_kind(SpanKind::Producer);
    assert_eq!(built, SpanBuilder { span_kind: Some(SpanKind::Producer), ..bare("n") });
}

#[test]
fn with_start_time_sets_the_start_time() {
    let built = SpanBuilder::from_name("n".to_string()).with_start_time(at(5));
    assert_eq!(built, SpanBuilder { start_time: Some(at(5)), ..bare("n") });
}

#[test]
fn with_end_time_sets_the_end_time() {
    let built = SpanBuilder::from_name("n".to_string()).with_end_time(at(6));
    assert_eq!(built, SpanBuilder { end_time: Some(at(6)), ..bare("n") });
}

#[test]
fn with_attributes_sets_the_attributes() {
    let built = SpanBuilder::from_name("n".to_string()).with_attributes(vec![attribute("a", 1)]);
    assert_eq!(built, SpanBuilder { attributes: Some(vec![attribute("a", 1)]), ..bare("n") });
}

#[test]
fn with_message_events_sets_the_events() {
    let events = vec![Event::new("e".to_string(), at(7), vec![attribute("a", 1)])];
    let built = SpanBuilder::from_name("n".to_string()).with_message_events(events.clone());
    assert_eq!(built, SpanBuilder { message_events: Some(events), ..bare("n") });
}

#[test]
fn with_links_sets_the_links() {
    let links = vec![Link::new(context(1, 2), Vec::new())];
    let built = SpanBuilder::from_name("n".to_string()).with_links(links.clone());
    assert_eq!(built, SpanBuilder { links: Some(links), ..bare("n") });
}

#[test]
fn with_status_code_sets_the_code() {
    let built = SpanBuilder::from_name("n".to_string()).with_status_code(StatusCode::DataLoss);
    assert_eq!(built, SpanBuilder { status_code: Some(StatusCode::DataLoss), ..bare("n") });
}

#[test]
fn with_status_message_sets_the_message() {
    let built = SpanBuilder::from_name("n".to_string()).with_status_message("m".to_string());
    assert_eq!(built, SpanBuilder { status_message: Some("m".to_string()), ..bare("n") });
}

#[test]
fn with_sampling_result_sets_the_verdict() {
    let built = SpanBuilder::from_name("n".to_string())
        .with_sampling_result(verdict(SamplingDecision::Record));
    assert_eq!(
        built,
        SpanBuilder { sampling_result: Some(verdict(SamplingDecision::Record)), ..bare("n") }
    );
}

#[test]
fn setters_keep_what_was_set_before_and_the_last_value_wins() {
    let built = SpanBuilder::from_name("n".to_string())
        .with_kind(SpanKind::Client)
        .with_trace_id(TraceId::from_u128(1))
        .with_kind(SpanKind::Server)
        .with_status_message("m".to_string());
    assert_eq!(
        built,
        SpanBuilder {
            span_kind: Some(SpanKind::Server),
            trace_id: Some(TraceId::from_u128(1)),
            status_message: Some("m".to_string()),
            ..bare("n")
        }
    );
    assert_eq!(built.clone(), built);
}

#[test]
fn fresh_trace_id_is_needed_only_where_nothing_gives_one() {
    let empty = Context::new();
    let ambient = active(7, 8);
    assert!(needs_trace_id(&bare("n"), &empty));
    assert!(!needs_trace_id(&bare("n"), &ambient));
    assert!(needs_trace_id(&bare("n").with_span_id(SpanId::from_u64(1)), &ambient));
    assert!(needs_trace_id(&bare("n").with_span_id(SpanId::from_u64(1)), &empty));
    assert!(!needs_trace_id(&bare("n").with_trace_id(TraceId::from_u128(1)), &empty));
    assert!(!needs_trace_id(
        &bare("n").with_trace_id(TraceId::from_u128(1)).with_span_id(SpanId::from_u64(1)),
        &empty
    ));
    assert!(!needs_trace_id(&bare("n").with_parent(context(1, 2)), &empty));
    assert!(!needs_trace_id(
        &bare("n").with_parent(context(1, 2)).with_span_id(SpanId::from_u64(1)),
        &empty
    ));
}

#[test]
fn parent_is_resolved_in_order() {
    let empty = Context::new();
    let ambient = active(7, 8);
    let fresh = TraceId::from_u128(0x99);
    let ambient_context =
        SpanContext::new(TraceId::from_u128(7), SpanId::from_u64(8), 1, false, state("k", "ambient"));

    assert_eq!(parent_of(&bare("n"), &empty, fresh), None);
    assert_eq!(parent_of(&bare("n"), &ambient, fresh), Some(ambient_context));
    assert_eq!(
        parent_of(&bare("n").with_parent(context(1, 2)), &ambient, fresh),
        Some(context(1, 2))
    );
    assert_eq!(
        parent_of(
            &bare("n").with_parent(context(1, 2)).with_trace_id(TraceId::from_u128(3)),
            &ambient,
            fresh
        ),
        Some(context(1, 2))
    );
    assert_eq!(
        parent_of(&bare("n").with_trace_id(TraceId::from_u128(3)), &ambient, fresh),
        Some(SpanContext::new(
            TraceId::from_u128(3),
            SpanId::invalid(),
            0,
            false,
            TraceState::new()
        ))
    );
    assert_eq!(
        parent_of(&bare("n").with_span_id(SpanId::from_u64(4)), &ambient, fresh),
        Some(SpanContext::new(fresh, SpanId::from_u64(4), 0, false, TraceState::new()))
    );
    assert_eq!(
        parent_of(
            &bare("n").with_trace_id(TraceId::from_u128(3)).with_span_id(SpanId::from_u64(4)),
            &empty,
            fresh
        ),
        Some(context(3, 4))
    );
}

#[test]
fn explicit_parent_is_taken_as_it_is() {
    let invalid = SpanContext::empty_context();
    let fresh = TraceId::from_u128(0x99);
    assert_eq!(
        parent_of(&bare("n").with_parent(invalid.clone()), &active(7, 8), fresh),
        Some(invalid)
    );
}

#[test]
fn assembled_root_takes_the_given_identifiers_and_defaults() {
    let span = assemble_span(
        bare("root"),
        None,
        TraceId::from_u128(0x77),
        SpanId::from_u64(0x88),
        verdict(SamplingDecision::RecordAndSampled),
        at(50),
    );
    let expected = Span::started(
        SpanContext::new(
            TraceId::from_u128(0x77),
            SpanId::from_u64(0x88),
            1,
            false,
            TraceState::new(),
        ),
        SpanId::invalid(),
        SpanKind::Internal,
        "root".to_string(),
        at(50),
        None,
        Vec::new(),
        Vec::new(),
        Vec::new(),
        StatusCode::OK,
        String::new(),
        true,
    );
    assert_eq!(span, expected);
}

#[test]
fn assembled_child_takes_trace_parent_flags_and_state_from_the_parent() {
    let parent =
        SpanContext::new(TraceId::from_u128(5), SpanId::from_u64(6), 0x81, true, state("k", "v"));
    let span = assemble_span(
        bare("child").with_start_time(at(10)).with_kind(SpanKind::Consumer),
        Some(parent),
        TraceId::from_u128(0x77),
        SpanId::from_u64(0x88),
        SamplingResult {
            decision: SamplingDecision::Record,
            attributes: vec![attribute("extra", 1)],
            trace_state: None,
        },
        at(50),
    );
    let expected = Span::started(
        SpanContext::new(
            TraceId::from_u128(5),
            SpanId::from_u64(0x88),
            0x80,
            false,
            state("k", "v"),
        ),
        SpanId::from_u64(6),
        SpanKind::Consumer,
        "child".to_string(),
        at(10),
        None,
        vec![attribute("extra", 1)],
        Vec::new(),
        Vec::new(),
        StatusCode::OK,
        String::new(),
        true,
    );
    assert_eq!(span, expected);
}

#[test]
fn assembly_reads_the_verdict_it_is_given_not_the_one_in_the_builder() {
    let span = assemble_span(
        bare("s").with_sampling_result(verdict(SamplingDecision::NotRecord)),
        None,
        TraceId::from_u128(1),
        SpanId::from_u64(2),
        SamplingResult {
            decision: SamplingDecision::RecordAndSampled,
            attributes: Vec::new(),
            trace_state: Some(state("k", "given")),
        },
        at(50),
    );
    assert!(span.is_recording());
    assert!(span.span_context().is_sampled());
    assert_eq!(span.span_context().trace_state(), &state("k", "given"));
}
