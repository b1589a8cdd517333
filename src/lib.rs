//! Deterministic clocks for testing time-dependent code.
//!
//! A mock clock holds two durations, a monotonic reading and a wall-clock
//! reading, that move only when told to. Instants and system times read it
//! once, when they are made, and do their arithmetic on what they captured.
//! The clock comes in two forms: one that every worker holding a handle to it
//! shares (`global`), and one that each worker owns for itself
//! (`thread_local`).

pub mod duration;
pub mod global;
pub mod laws;
pub mod platform;
pub mod state;
pub mod thread_local;

use std::time::Duration;
use vstd::prelude::*;

use crate::duration::duration_nanos;

verus! {

/// The error of `duration_since` and `elapsed` on a system time: how far the
/// other time lies after this one.
#[derive(Clone, Copy, Debug)]
pub struct SystemTimeError(Duration);

impl SystemTimeError {
    /// An error for a time that lies `duration` after the one it was taken from.
    pub fn new(duration: Duration) -> (r: SystemTimeError)
        ensures
            duration_nanos(r.spec_duration()) == duration_nanos(duration),
    {
        SystemTimeError(duration)
    }

    /// How far the other time lies after this one.
    pub closed spec fn spec_duration(&self) -> Duration {
        self.0
    }

    /// How far the other time lies after this one.
    pub fn duration(&self) -> (r: Duration)
        ensures
            duration_nanos(r) == duration_nanos(self.spec_duration()),
    {
        self.0
    }

    /// A sentence that says what went wrong.
    pub fn message(&self) -> (r: String)
        ensures
            r@ == "second time provided was later than self"@,
    {
        "second time provided was later than self".to_owned()
    }
}

} // verus!
