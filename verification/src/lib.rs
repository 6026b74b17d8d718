//! In-process core of a distributed-tracing library.
//!
//! A *span* is one traced unit of work. This crate tracks which span is
//! active as control flows through nested calls, and starts new spans with
//! the right causal linkage to their surroundings: trace identity, parent,
//! inherited flags and trace state.
//!
//! The crate is verified with Verus. Every executable function carries a
//! contract over the mathematical view (`@`) of its arguments, and the
//! relations between functions are stated as public proof functions.
//!
//! There is no hidden global state here. The "current context" of a thread
//! of control is an explicit value, [`api::context::CurrentContext`], which
//! the embedding program keeps in whatever per-thread storage it has and
//! lends to the functions below.
pub mod api;
pub mod sdk;
