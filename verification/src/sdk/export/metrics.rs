//! The interface of the stage that integrates metric measurements.
use vstd::prelude::*;

verus! {

/// The stage of the metrics pipeline that an accumulator feeds. This crate
/// carries an integrator to where an accumulator is configured and never
/// calls it.
pub trait Integrator {

}

} // verus!
