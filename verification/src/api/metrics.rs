//! The vocabulary of the metrics interface: instrument and number kinds,
//! descriptors and errors. Instruments are only described here; nothing in
//! this crate records a measurement.
use vstd::prelude::*;

pub mod sdk_api;

verus! {

/// What went wrong in the metrics pipeline.
#[derive(Debug, PartialEq)]
pub enum MetricsError {
    /// A failure described in words.
    Other(String),
    /// A negative number was given to an instrument that only counts up.
    NegativeInput,
    /// Two aggregators that cannot be merged were merged.
    InconsistentAggregator,
}

/// The kinds of instrument.
#[derive(Clone, Copy, Debug, PartialEq, Eq, Structural)]
pub enum InstrumentKind {
    /// Counts up, synchronously.
    Counter,
    /// Counts up and down, synchronously.
    UpDownCounter,
    /// Records single values, synchronously.
    ValueRecorder,
    /// Reports a sum that only grows, when asked.
    SumObserver,
    /// Reports a sum, when asked.
    UpDownSumObserver,
    /// Reports single values, when asked.
    ValueObserver,
}

/// The kinds of number that an instrument takes.
#[derive(Clone, Copy, Debug, PartialEq, Eq, Structural)]
pub enum NumberKind {
    /// Signed 64-bit integers.
    I64,
    /// Unsigned 64-bit integers.
    U64,
    /// 64-bit numbers in binary floating-point format.
    F64,
}

/// A number as its 64 bits. Its [`NumberKind`] says how to read them.
#[derive(Clone, Copy, Debug, PartialEq, Eq, Structural)]
pub struct Number(pub u64);

/// What an instrument is: its name and its kinds.
#[derive(Debug, PartialEq)]
pub struct Descriptor {
    name: String,
    instrument_kind: InstrumentKind,
    number_kind: NumberKind,
}

/// The mathematical value of a [`Descriptor`].
pub struct DescriptorView {
    pub name: Seq<char>,
    pub instrument_kind: InstrumentKind,
    pub number_kind: NumberKind,
}

impl View for Descriptor {
    type V = DescriptorView;

    closed spec fn view(&self) -> DescriptorView {
        DescriptorView {
            name: self.name@,
            instrument_kind: self.instrument_kind,
            number_kind: self.number_kind,
        }
    }
}

impl Descriptor {
    /// The descriptor of an instrument with the given name and kinds.
    pub fn new(name: String, instrument_kind: InstrumentKind, number_kind: NumberKind) -> (descriptor:
        Descriptor)
        ensures
            descriptor@ == (DescriptorView { name: name@, instrument_kind, number_kind }),
    {
        Descriptor { name, instrument_kind, number_kind }
    }

    /// The name of the instrument.
    pub fn name(&self) -> (name: &str)
        ensures
            name@ == self@.name,
    {
        self.name.as_str()
    }

    /// The kind of the instrument.
    pub fn instrument_kind(&self) -> (kind: InstrumentKind)
        ensures
            kind == self@.instrument_kind,
    {
        self.instrument_kind
    }

    /// The kind of number that the instrument takes.
    pub fn number_kind(&self) -> (kind: NumberKind)
        ensures
            kind == self@.number_kind,
    {
        self.number_kind
    }
}

} // verus!
