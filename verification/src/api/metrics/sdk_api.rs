//! The interfaces between the metrics front end and an implementation of
//! it. They are for implementations to provide; nothing is assumed about
//! what an implementation does.
use crate::api::attribute::KeyValue;
use crate::api::context::{Context, CurrentContext};
use crate::api::metrics::{InstrumentKind, Number, NumberKind};
use vstd::prelude::*;

verus! {

/// The part of a meter that makes instruments.
pub trait MeterCore {
    /// The synchronous instruments that this meter makes.
    type Synchronous;

    /// A new synchronous instrument with the given name and kinds.
    fn new_sync_instrument(
        &self,
        name: String,
        instrument_kind: InstrumentKind,
        number_kind: NumberKind,
    ) -> Self::Synchronous;
}

/// What every instrument offers.
pub trait Instrument {
    /// Description of the instrument's descriptor
    fn descriptor(&self) -> &str;
}

/// An instrument that is given its measurements by the program.
pub trait SyncInstrument {
    /// The instrument bound to one set of labels.
    type Bound: BoundSyncInstrument;

    /// Binds the instrument to `labels`.
    fn bind(&self, labels: &[KeyValue]) -> Self::Bound;

    /// Records `number` under `labels`, in the current context of `cell`.
    fn record_one(&self, cell: &CurrentContext, number: Number, labels: &[KeyValue]) {
        self.record_one_with_context(cell.get(), number, labels)
    }

    /// Records `number` under `labels`, in the context `cx`.
    fn record_one_with_context(&self, cx: &Context, number: Number, labels: &[KeyValue]);
}

/// A synchronous instrument bound to one set of labels.
pub trait BoundSyncInstrument {
    /// Records `number`, in the current context of `cell`.
    fn record_one(&self, cell: &CurrentContext, number: Number) {
        self.record_one_with_context(cell.get(), number)
    }

    /// Records `number`, in the context `cx`.
    fn record_one_with_context(&self, cx: &Context, number: Number);
}

/// An instrument that reports its measurements when asked.
pub trait AsyncInstrument: Instrument {

}

} // verus!
