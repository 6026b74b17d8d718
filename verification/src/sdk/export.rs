//! Interfaces of what takes telemetry out of the program.
pub mod metrics;
