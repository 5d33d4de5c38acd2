//! A timing probe: a routine that ran longer than a threshold allows is
//! taken as a sign that a debugger is slowing the process down.
//!
//! The library decides and words the outcome of one measurement. Taking the
//! measurement (reading a monotonic clock around the routine) is left to the
//! caller, who hands in the elapsed time in whole milliseconds.

pub mod decimal;
pub mod probe;
