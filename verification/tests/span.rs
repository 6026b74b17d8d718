use opentelemetry::api::attribute::{KeyValue, Value};
use opentelemetry::api::trace::event::Event;
use opentelemetry::api::trace::link::Link;
use opentelemetry::api::trace::span::{Span, SpanKind, StatusCode};
use opentelemetry::api::trace::span_context::{SpanContext, SpanId, TraceId};
use opentelemetry::api::trace::trace_state::TraceState;
use std::time::{Duration, SystemTime, UNIX_EPOCH};

fn at(seconds: u64) -> SystemTime {
    UNIX_EPOCH + Duration::from_secs(seconds)
}

fn attribute(key: &str, value: i64) -> KeyValue {
    KeyValue::new(key.to_string(), Value::I64(value))
}

fn context(trace: u128, span: u64) -> SpanContext {
    SpanContext::new(TraceId::from_u128(trace), SpanId::from_u64(span), 1, false, TraceState::new())
}

fn recording_span() -> Span {
    Span::started(
        context(1, 2),
        SpanId::from_u64(9),
        SpanKind::Server,
        "work".to_string(),
        at(100),
        None,
        vec![attribute("first", 1)],
        Vec::new(),
        Vec::new(),
        StatusCode::OK,
        String::new(),
        true,
    )
}

fn silent_span() -> Span {
    Span::started(
        context(1, 3),
        SpanId::invalid(),
        SpanKind::Internal,
        "quiet".to_string(),
        at(100),
        None,
        Vec::new(),
        Vec::new(),
        Vec::new(),
        StatusCode::OK,
        String::new(),
        false,
    )
}

#[test]
fn started_span_holds_what_it_was_given() {
    let span = recording_span();
    assert_eq!(span.span_context(), &context(1, 2));
    assert_eq!(span.parent_span_id(), SpanId::from_u64(9));
    assert_eq!(span.span_kind(), SpanKind::Server);
    assert_eq!(span.name(), "work");
    assert_eq!(span.start_time(), Some(at(100)));
    assert_eq!(span.end_time(), None);
    assert_eq!(span.attributes(), &vec![attribute("first", 1)]);
    assert!(span.events().is_empty());
    assert!(span.links().is_empty());
    assert_eq!(span.status_code(), StatusCode::OK);
    assert_eq!(span.status_message(), "");
    assert!(!span.has_ended());
    assert!(span.is_recording());
}

#[test]
fn invalid_span_is_the_sentinel() {
    let span = Span::invalid();
    assert!(!span.span_context().is_valid());
    assert_eq!(span.span_context(), &SpanContext::empty_context());
    assert_eq!(span.parent_span_id(), SpanId::invalid());
    assert_eq!(span.span_kind(), SpanKind::Internal);
    assert_eq!(span.name(), "");
    assert_eq!(span.start_time(), None);
    assert_eq!(span.end_time(), None);
    assert!(span.attributes().is_empty());
    assert!(!span.is_recording());
    assert!(!span.has_ended());
}

#[test]
fn invalid_span_ignores_changes() {
    let mut span = Span::invalid();
    span.set_attribute(attribute("a", 1));
    span.add_event_with_timestamp("e".to_string(), at(1), Vec::new());
    span.add_link(context(5, 6), Vec::new());
    span.set_status(StatusCode::Internal, "bad".to_string());
    let mut expected = Span::invalid();
    assert_eq!(span, expected);
    assert!(span.end_with_timestamp(at(2)));
    assert!(expected.end_with_timestamp(at(2)));
    assert_eq!(span, expected);
}

#[test]
fn attributes_are_appended_in_order() {
    let mut span = recording_span();
    span.set_attribute(attribute("second", 2));
    span.set_attributes(vec![attribute("third", 3), attribute("fourth", 4)]);
    span.set_attributes(Vec::new());
    assert_eq!(
        span.attributes(),
        &vec![
            attribute("first", 1),
            attribute("second", 2),
            attribute("third", 3),
            attribute("fourth", 4)
        ]
    );
}

#[test]
fn events_carry_name_time_and_attributes() {
    let mut span = recording_span();
    span.add_event_with_timestamp("one".to_string(), at(101), vec![attribute("k", 1)]);
    span.add_event_with_timestamp("two".to_string(), at(102), Vec::new());
    assert_eq!(
        span.events(),
        &vec![
            Event::new("one".to_string(), at(101), vec![attribute("k", 1)]),
            Event::new("two".to_string(), at(102), Vec::new())
        ]
    );
}

#[test]
fn event_without_timestamp_is_stamped_by_the_clock() {
    let mut span = recording_span();
    let before = SystemTime::now();
    span.add_event("now".to_string(), vec![attribute("k", 1)]);
    let after = SystemTime::now();
    assert_eq!(span.events().len(), 1);
    let event = &span.events()[0];
    assert_eq!(event.name, "now");
    assert_eq!(event.attributes, vec![attribute("k", 1)]);
    assert!(before <= event.timestamp && event.timestamp <= after);
}

#[test]
fn links_point_at_other_contexts() {
    let mut span = recording_span();
    span.add_link(context(7, 8), vec![attribute("why", 1)]);
    assert_eq!(span.links(), &vec![Link::new(context(7, 8), vec![attribute("why", 1)])]);
    assert_eq!(span.span_context(), &context(1, 2));
}

#[test]
fn status_is_replaced() {
    let mut span = recording_span();
    span.set_status(StatusCode::NotFound, "missing".to_string());
    assert_eq!(span.status_code(), StatusCode::NotFound);
    assert_eq!(span.status_message(), "missing");
    span.set_status(StatusCode::OK, String::new());
    assert_eq!(span.status_code(), StatusCode::OK);
    assert_eq!(span.status_message(), "");
}

#[test]
fn ending_twice_is_ending_once() {
    let mut once = recording_span();
    let mut twice = recording_span();
    assert!(once.end_with_timestamp(at(200)));
    assert!(twice.end_with_timestamp(at(200)));
    assert!(!twice.end_with_timestamp(at(300)));
    assert_eq!(once, twice);
    assert_eq!(twice.end_time(), Some(at(200)));
    assert!(twice.has_ended());
    assert!(!twice.is_recording());
}

#[test]
fn end_without_timestamp_reads_the_clock_once() {
    let mut span = recording_span();
    let before = SystemTime::now();
    assert!(span.end());
    let after = SystemTime::now();
    let ended_at = span.end_time().unwrap();
    assert!(before <= ended_at && ended_at <= after);
    assert!(!span.end());
    assert_eq!(span.end_time(), Some(ended_at));
}

#[test]
fn end_keeps_the_configured_end_time() {
    let mut span = Span::started(
        context(1, 2),
        SpanId::invalid(),
        SpanKind::Internal,
        "replayed".to_string(),
        at(100),
        Some(at(150)),
        Vec::new(),
        Vec::new(),
        Vec::new(),
        StatusCode::OK,
        String::new(),
        true,
    );
    assert!(!span.has_ended());
    assert_eq!(span.end_time(), Some(at(150)));
    assert!(span.end());
    assert!(span.has_ended());
    assert_eq!(span.end_time(), Some(at(150)));
}

#[test]
fn explicit_end_timestamp_replaces_the_configured_one() {
    let mut span = Span::started(
        context(1, 2),
        SpanId::invalid(),
        SpanKind::Internal,
        "replayed".to_string(),
        at(100),
        Some(at(150)),
        Vec::new(),
        Vec::new(),
        Vec::new(),
        StatusCode::OK,
        String::new(),
        true,
    );
    assert!(span.end_with_timestamp(at(175)));
    assert_eq!(span.end_time(), Some(at(175)));
}

#[test]
fn ended_span_ignores_changes() {
    let mut span = recording_span();
    span.end_with_timestamp(at(200));
    let frozen = span.clone();
    span.set_attribute(attribute("late", 1));
    span.set_attributes(vec![attribute("later", 2)]);
    span.add_event_with_timestamp("late".to_string(), at(201), Vec::new());
    span.add_event("late".to_string(), Vec::new());
    span.add_link(context(7, 8), Vec::new());
    span.set_status(StatusCode::Aborted, "late".to_string());
    span.end();
    assert_eq!(span, frozen);
}

#[test]
fn span_that_does_not_record_ignores_changes_but_ends() {
    let mut span = silent_span();
    assert!(!span.is_recording());
    span.set_attribute(attribute("a", 1));
    span.set_attributes(vec![attribute("b", 2)]);
    span.add_event_with_timestamp("e".to_string(), at(101), Vec::new());
    span.add_link(context(7, 8), Vec::new());
    span.set_status(StatusCode::Aborted, "no".to_string());
    assert_eq!(span, silent_span());
    assert!(span.end_with_timestamp(at(200)));
    assert!(span.has_ended());
    assert_eq!(span.end_time(), Some(at(200)));
}

#[test]
fn clone_is_equal_and_independent() {
    let mut span = recording_span();
    span.add_event_with_timestamp("e".to_string(), at(101), vec![attribute("k", 1)]);
    span.add_link(context(7, 8), Vec::new());
    let copy = span.clone();
    assert_eq!(copy, span);
    span.set_attribute(attribute("more", 5));
    assert_ne!(copy, span);
    assert_eq!(copy.attributes().len(), 1);
}

#[test]
fn attribute_values_of_every_kind_are_copied() {
    let values = vec![
        KeyValue::new("b".to_string(), Value::Bool(true)),
        KeyValue::new("i".to_string(), Value::I64(-3)),
        KeyValue::new("u".to_string(), Value::U64(3)),
        KeyValue::new("s".to_string(), Value::String("text".to_string())),
        KeyValue::new("y".to_string(), Value::Bytes(vec![1, 2, 3])),
    ];
    let copy = opentelemetry::api::attribute::clone_attributes(&values);
    assert_eq!(copy, values);
    assert_eq!(values[3].clone(), KeyValue::new("s".to_string(), Value::String("text".to_string())));
}
