//! The configuration of a metrics accumulator. The accumulator itself
//! records nothing: it is the place where an implementation would go.
use crate::api::metrics::sdk_api::MeterCore;
use crate::api::metrics::{Descriptor, DescriptorView, InstrumentKind, MetricsError, NumberKind};
use crate::sdk::export::metrics::Integrator;
use crate::sdk::resource::Resource;
use std::sync::Arc;
use vstd::prelude::*;

verus! {

/// The callback to which failures are reported. A failure that is handed
/// to it is not retried and not returned to the program: the handler is
/// called, and the program goes on.
pub struct ErrorHandler<F: Fn(MetricsError)>(F);

impl<F: Fn(MetricsError)> ErrorHandler<F> {
    #[verifier::type_invariant]
    spec fn takes_every_error(self) -> bool {
        forall|error: MetricsError| #[trigger] self.0.requires((error,))
    }

    /// The callback itself.
    pub closed spec fn callback(&self) -> F {
        self.0
    }

    /// A handler that calls `handler` with each failure. The callback has
    /// to take every error.
    pub fn new(handler: F) -> (wrapped: Self)
        requires
            forall|error: MetricsError| #[trigger] handler.requires((error,)),
        ensures
            wrapped.callback() == handler,
    {
        ErrorHandler(handler)
    }

    /// Reports `error`: calls the callback with it, once.
    pub fn handle(&self, error: MetricsError)
        ensures
            self.callback().ensures((error,), ()),
    {
        proof {
            use_type_invariant(self);
        }
        (self.0)(error)
    }
}

/// Starts the configuration of an accumulator that feeds `integrator`:
/// no error handler, no pushing, no resource.
pub fn accumulator<I: Integrator, F: Fn(MetricsError)>(integrator: Arc<I>) -> (builder:
    AccumulatorBuilder<I, F>)
    ensures
        builder@ == (AccumulatorBuilderView::<I, F> {
            integrator,
            error_handler: None,
            push: false,
            resource: None,
        }),
{
    AccumulatorBuilder { integrator, error_handler: None, push: false, resource: None }
}

/// The configuration of an accumulator.
pub struct AccumulatorBuilder<I: Integrator, F: Fn(MetricsError)> {
    integrator: Arc<I>,
    error_handler: Option<ErrorHandler<F>>,
    push: bool,
    resource: Option<Arc<Resource>>,
}

/// What an [`AccumulatorBuilder`] holds.
pub struct AccumulatorBuilderView<I: Integrator, F: Fn(MetricsError)> {
    /// The integrator that the accumulator is to feed.
    pub integrator: Arc<I>,
    /// The handler to which failures are reported, if one is set.
    pub error_handler: Option<ErrorHandler<F>>,
    /// Whether the accumulator is to push what it collects.
    pub push: bool,
    /// The resource that the measurements are made for, if one is set.
    pub resource: Option<Arc<Resource>>,
}

impl<I: Integrator, F: Fn(MetricsError)> View for AccumulatorBuilder<I, F> {
    type V = AccumulatorBuilderView<I, F>;

    closed spec fn view(&self) -> AccumulatorBuilderView<I, F> {
        AccumulatorBuilderView {
            integrator: self.integrator,
            error_handler: self.error_handler,
            push: self.push,
            resource: self.resource,
        }
    }
}

impl<I: Integrator, F: Fn(MetricsError)> AccumulatorBuilder<I, F> {
    /// Sets the handler to which failures are reported.
    pub fn with_error_handler(self, error_handler: ErrorHandler<F>) -> (builder: Self)
        ensures
            builder@ == (AccumulatorBuilderView { error_handler: Some(error_handler), ..self@ }),
    {
        AccumulatorBuilder { error_handler: Some(error_handler), ..self }
    }

    /// Sets whether the accumulator pushes what it collects.
    pub fn with_push(self, push: bool) -> (builder: Self)
        ensures
            builder@ == (AccumulatorBuilderView { push, ..self@ }),
    {
        AccumulatorBuilder { push, ..self }
    }

    /// Sets the resource that the measurements are made for.
    pub fn with_resource(self, resource: Arc<Resource>) -> (builder: Self)
        ensures
            builder@ == (AccumulatorBuilderView { resource: Some(resource), ..self@ }),
    {
        AccumulatorBuilder { resource: Some(resource), ..self }
    }

    /// The integrator that the accumulator is to feed.
    pub fn integrator(&self) -> (integrator: &Arc<I>)
        ensures
            *integrator == self@.integrator,
    {
        &self.integrator
    }

    /// The handler to which failures are reported, if one is set.
    pub fn error_handler(&self) -> (handler: Option<&ErrorHandler<F>>)
        ensures
            match handler {
                Some(h) => self@.error_handler == Some(*h),
                None => self@.error_handler is None,
            },
    {
        self.error_handler.as_ref()
    }

    /// Whether the accumulator is to push what it collects.
    pub fn push(&self) -> (push: bool)
        ensures
            push == self@.push,
    {
        self.push
    }

    /// The resource that the measurements are made for, if one is set.
    pub fn resource(&self) -> (resource: Option<&Arc<Resource>>)
        ensures
            match resource {
                Some(r) => self@.resource == Some(*r),
                None => self@.resource is None,
            },
    {
        self.resource.as_ref()
    }

    /// Makes the accumulator. It holds no state: the configuration ends
    /// here.
    pub fn build(self) -> (made: Accumulator)
        ensures
            made == (Accumulator {  }),
    {
        Accumulator {  }
    }
}

/// The accumulator of a metrics pipeline. It holds no state.
#[derive(Debug, PartialEq)]
pub struct Accumulator {}

/// A synchronous instrument of an accumulator.
#[derive(Debug, PartialEq)]
pub struct SyncInstrument {
    instrument: Instrument,
}

impl SyncInstrument {
    /// The instrument inside.
    pub closed spec fn inner(&self) -> Instrument {
        self.instrument
    }

    /// The instrument inside.
    pub fn instrument(&self) -> (instrument: &Instrument)
        ensures
            *instrument == self.inner(),
    {
        &self.instrument
    }
}

/// An instrument of an accumulator: its descriptor and the accumulator that
/// made it.
#[derive(Debug, PartialEq)]
pub struct Instrument {
    descriptor: Descriptor,
    meter: Arc<Accumulator>,
}

impl Instrument {
    /// The mathematical value of the descriptor.
    pub closed spec fn described(&self) -> DescriptorView {
        self.descriptor@
    }
}

impl crate::api::metrics::sdk_api::Instrument for Instrument {
    fn descriptor(&self) -> (name: &str)
        ensures
            name@ == self.described().name,
    {
        self.descriptor.name()
    }
}

impl MeterCore for Accumulator {
    type Synchronous = SyncInstrument;

    fn new_sync_instrument(
        &self,
        name: String,
        instrument_kind: InstrumentKind,
        number_kind: NumberKind,
    ) -> (made: SyncInstrument)
        ensures
            made.inner().described() == (DescriptorView {
                name: name@,
                instrument_kind,
                number_kind,
            }),
    {
        SyncInstrument {
            instrument: Instrument {
                descriptor: Descriptor::new(name, instrument_kind, number_kind),
                meter: Arc::new(Accumulator {  }),
            },
        }
    }
}

} // verus!
