//! Wall-clock timestamps.
//!
//! A timestamp is carried through the library and never inspected, so
//! `std::time::SystemTime` is used as it is, as an opaque value.
use vstd::prelude::*;

verus! {

/// `std::time::SystemTime`, declared so that it can stand in fields and
/// signatures. Nothing is assumed about what a value of it holds.
#[verifier::external_type_specification]
#[verifier::external_body]
pub struct ExSystemTime(std::time::SystemTime);

/// `std::time::SystemTime::now` reads the system clock. Nothing is assumed
/// about the value it returns: two calls may differ in any way.
pub assume_specification[ std::time::SystemTime::now ]() -> (now: std::time::SystemTime)
;

} // verus!
