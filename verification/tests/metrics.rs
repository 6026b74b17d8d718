use opentelemetry::api::attribute::{KeyValue, Value};
use opentelemetry::api::metrics::sdk_api::{Instrument, MeterCore};
use opentelemetry::api::metrics::{Descriptor, InstrumentKind, MetricsError, Number, NumberKind};
use opentelemetry::sdk::export::metrics::Integrator;
use opentelemetry::sdk::metrics::{accumulator, Accumulator, AccumulatorBuilder, ErrorHandler};
use opentelemetry::sdk::resource::Resource;
use std::cell::RefCell;
use std::sync::Arc;

#[derive(Debug, PartialEq)]
struct Named(u32);

impl Integrator for Named {}

fn ignore(_error: MetricsError) {}

fn resource() -> Arc<Resource> {
    Arc::new(Resource::new(vec![KeyValue::new("service".to_string(), Value::Bool(true))]))
}

#[test]
fn accumulator_starts_with_defaults() {
    let builder: AccumulatorBuilder<Named, fn(MetricsError)> = accumulator(Arc::new(Named(7)));
    assert_eq!(**builder.integrator(), Named(7));
    assert!(builder.error_handler().is_none());
    assert!(!builder.push());
    assert!(builder.resource().is_none());
}

#[test]
fn with_push_sets_only_push() {
    let builder: AccumulatorBuilder<Named, fn(MetricsError)> =
        accumulator(Arc::new(Named(7))).with_push(true);
    assert!(builder.push());
    assert_eq!(**builder.integrator(), Named(7));
    assert!(builder.error_handler().is_none());
    assert!(builder.resource().is_none());
    assert!(!builder.with_push(false).push());
}

#[test]
fn with_resource_sets_only_the_resource() {
    let shared = resource();
    let builder: AccumulatorBuilder<Named, fn(MetricsError)> =
        accumulator(Arc::new(Named(7))).with_resource(shared.clone());
    assert!(Arc::ptr_eq(builder.resource().unwrap(), &shared));
    assert!(!builder.push());
    assert!(builder.error_handler().is_none());
    assert_eq!(**builder.integrator(), Named(7));
}

#[test]
fn with_error_handler_sets_only_the_handler() {
    let seen: RefCell<Vec<MetricsError>> = RefCell::new(Vec::new());
    let builder = accumulator(Arc::new(Named(7)))
        .with_push(true)
        .with_error_handler(ErrorHandler::new(|error: MetricsError| seen.borrow_mut().push(error)));
    assert!(builder.push());
    assert!(builder.resource().is_none());
    assert_eq!(**builder.integrator(), Named(7));
    builder.error_handler().unwrap().handle(MetricsError::NegativeInput);
    builder.error_handler().unwrap().handle(MetricsError::Other("late".to_string()));
    assert_eq!(
        *seen.borrow(),
        vec![MetricsError::NegativeInput, MetricsError::Other("late".to_string())]
    );
}

#[test]
fn error_handler_calls_its_callback_once_for_each_error() {
    let seen: RefCell<Vec<MetricsError>> = RefCell::new(Vec::new());
    let handler = ErrorHandler::new(|error: MetricsError| seen.borrow_mut().push(error));
    assert!(seen.borrow().is_empty());
    handler.handle(MetricsError::InconsistentAggregator);
    assert_eq!(*seen.borrow(), vec![MetricsError::InconsistentAggregator]);
    let silent = ErrorHandler::new(ignore);
    silent.handle(MetricsError::NegativeInput);
    assert_eq!(seen.borrow().len(), 1);
}

#[test]
fn build_gives_the_accumulator() {
    let built = accumulator::<Named, fn(MetricsError)>(Arc::new(Named(7)))
        .with_push(true)
        .with_resource(resource())
        .build();
    assert_eq!(built, Accumulator {});
}

#[test]
fn descriptor_keeps_its_parts() {
    let descriptor =
        Descriptor::new("requests".to_string(), InstrumentKind::Counter, NumberKind::U64);
    assert_eq!(descriptor.name(), "requests");
    assert_eq!(descriptor.instrument_kind(), InstrumentKind::Counter);
    assert_eq!(descriptor.number_kind(), NumberKind::U64);
    assert_eq!(Number(5), Number(5));
}

#[test]
fn accumulator_describes_the_instruments_it_makes() {
    let meter = Accumulator {};
    let made = meter.new_sync_instrument(
        "latency".to_string(),
        InstrumentKind::ValueRecorder,
        NumberKind::F64,
    );
    assert_eq!(made.instrument().descriptor(), "latency");
    let other =
        meter.new_sync_instrument("size".to_string(), InstrumentKind::Counter, NumberKind::I64);
    assert_eq!(other.instrument().descriptor(), "size");
    assert_ne!(made, other);
}
