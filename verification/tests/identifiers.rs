use opentelemetry::api::trace::span_context::{SpanContext, SpanId, TraceId, TRACE_FLAG_SAMPLED};
use opentelemetry::api::trace::trace_state::TraceState;

#[test]
fn zero_identifiers_are_invalid() {
    assert!(!TraceId::invalid().is_valid());
    assert!(!SpanId::invalid().is_valid());
    assert_eq!(TraceId::invalid().to_u128(), 0);
    assert_eq!(SpanId::invalid().to_u64(), 0);
    assert!(!TraceId::from_u128(0).is_valid());
    assert!(!SpanId::from_u64(0).is_valid());
}

#[test]
fn nonzero_identifiers_are_valid() {
    assert!(TraceId::from_u128(1).is_valid());
    assert!(SpanId::from_u64(u64::MAX).is_valid());
    assert_eq!(TraceId::from_u128(0xabcdef).to_u128(), 0xabcdef);
    assert_eq!(SpanId::from_u64(42).to_u64(), 42);
}

#[test]
fn span_context_keeps_its_parts() {
    let mut state = TraceState::new();
    state.insert("vendor".to_string(), "value".to_string());
    let context = SpanContext::new(TraceId::from_u128(7), SpanId::from_u64(9), 0x03, true, state);
    assert_eq!(context.trace_id(), TraceId::from_u128(7));
    assert_eq!(context.span_id(), SpanId::from_u64(9));
    assert_eq!(context.trace_flags(), 0x03);
    assert!(context.is_remote());
    assert!(context.is_valid());
    assert!(context.is_sampled());
    assert_eq!(context.trace_state().get("vendor"), Some(&"value".to_string()));
    let copy = context.clone();
    assert_eq!(copy.trace_id(), TraceId::from_u128(7));
    assert_eq!(copy.trace_state().len(), 1);
}

#[test]
fn span_context_validity_needs_both_identifiers() {
    let only_trace =
        SpanContext::new(TraceId::from_u128(7), SpanId::invalid(), 0, false, TraceState::new());
    let only_span =
        SpanContext::new(TraceId::invalid(), SpanId::from_u64(7), 0, false, TraceState::new());
    assert!(!only_trace.is_valid());
    assert!(!only_span.is_valid());
}

#[test]
fn empty_span_context_is_the_invalid_sentinel() {
    let context = SpanContext::empty_context();
    assert!(!context.is_valid());
    assert!(!context.is_sampled());
    assert!(!context.is_remote());
    assert_eq!(context.trace_flags(), 0);
    assert_eq!(context.trace_id().to_u128(), 0);
    assert_eq!(context.span_id().to_u64(), 0);
    assert!(context.trace_state().is_empty());
}

#[test]
fn sampled_flag_is_the_lowest_bit() {
    assert_eq!(TRACE_FLAG_SAMPLED, 1);
    let unsampled =
        SpanContext::new(TraceId::from_u128(1), SpanId::from_u64(1), 0xfe, false, TraceState::new());
    assert!(!unsampled.is_sampled());
}

#[test]
fn trace_state_keeps_insertion_order_and_unique_keys() {
    let mut state = TraceState::new();
    assert!(state.is_empty());
    assert_eq!(state.get("a"), None);
    state.insert("a".to_string(), "1".to_string());
    state.insert("b".to_string(), "2".to_string());
    state.insert("c".to_string(), "3".to_string());
    state.insert("b".to_string(), "4".to_string());
    assert_eq!(state.len(), 3);
    assert_eq!(state.entry(0), Some((&"a".to_string(), &"1".to_string())));
    assert_eq!(state.entry(1), Some((&"b".to_string(), &"4".to_string())));
    assert_eq!(state.entry(2), Some((&"c".to_string(), &"3".to_string())));
    assert_eq!(state.entry(3), None);
    assert_eq!(state.get("b"), Some(&"4".to_string()));
    assert_eq!(state.get("d"), None);
    let copy = state.clone();
    assert_eq!(copy.len(), 3);
    assert_eq!(copy.get("c"), Some(&"3".to_string()));
    assert!(TraceState::default().is_empty());
}
