//! The state a mock clock keeps: a monotonic reading and a wall-clock reading.

use std::time::Duration;
use vstd::prelude::*;

use crate::duration::{duration_nanos, max_nanos, zero};

verus! {

/// The two readings of a mock clock, in nanoseconds.
pub struct Readings {
    /// The monotonic reading.
    pub time: nat,
    /// The wall-clock reading.
    pub system_time: nat,
}

impl Readings {
    /// These readings with the monotonic one overwritten by `t`.
    pub open spec fn with_time(self, t: nat) -> Readings {
        Readings { time: t, system_time: self.system_time }
    }

    /// These readings with the monotonic one moved forward by `d`.
    pub open spec fn advanced(self, d: nat) -> Readings {
        self.with_time(self.time + d)
    }

    /// These readings with the wall-clock one overwritten by `t`.
    pub open spec fn with_system_time(self, t: nat) -> Readings {
        Readings { time: self.time, system_time: t }
    }

    /// These readings with the wall-clock one moved forward by `d`.
    pub open spec fn system_advanced(self, d: nat) -> Readings {
        self.with_system_time(self.system_time + d)
    }
}

/// The two readings of a mock clock. Both start at zero; `set_*` overwrites a
/// reading, `advance*` adds to it and never makes it smaller.
pub struct ClockState {
    time: Duration,
    system_time: Duration,
}

impl View for ClockState {
    type V = Readings;

    closed spec fn view(&self) -> Readings {
        Readings { time: duration_nanos(self.time), system_time: duration_nanos(self.system_time) }
    }
}

impl ClockState {
    /// A state with both readings at zero.
    pub fn new() -> (r: ClockState)
        ensures
            r@ == (Readings { time: 0, system_time: 0 }),
    {
        ClockState { time: zero(), system_time: zero() }
    }

    /// Overwrites the monotonic reading.
    pub fn set_time(&mut self, time: Duration)
        ensures
            final(self)@ == old(self)@.with_time(duration_nanos(time)),
    {
        self.time = time;
    }

    /// Adds `time` to the monotonic reading where the sum can be represented,
    /// and says whether it did; otherwise the state is left as it was.
    pub fn advance(&mut self, time: Duration) -> (done: bool)
        ensures
            done <==> old(self)@.time + duration_nanos(time) <= max_nanos(),
            final(self)@ == if done {
                old(self)@.advanced(duration_nanos(time))
            } else {
                old(self)@
            },
    {
        match self.time.checked_add(time) {
            Some(t) => {
                self.time = t;
                true
            },
            None => false,
        }
    }

    /// The monotonic reading.
    pub fn time(&self) -> (r: Duration)
        ensures
            duration_nanos(r) == self@.time,
    {
        self.time
    }

    /// Overwrites the wall-clock reading.
    pub fn set_system_time(&mut self, time: Duration)
        ensures
            final(self)@ == old(self)@.with_system_time(duration_nanos(time)),
    {
        self.system_time = time;
    }

    /// Adds `time` to the wall-clock reading where the sum can be represented,
    /// and says whether it did; otherwise the state is left as it was.
    pub fn advance_system_time(&mut self, time: Duration) -> (done: bool)
        ensures
            done <==> old(self)@.system_time + duration_nanos(time) <= max_nanos(),
            final(self)@ == if done {
                old(self)@.system_advanced(duration_nanos(time))
            } else {
                old(self)@
            },
    {
        match self.system_time.checked_add(time) {
            Some(t) => {
                self.system_time = t;
                true
            },
            None => false,
        }
    }

    /// The wall-clock reading.
    pub fn system_time(&self) -> (r: Duration)
        ensures
            duration_nanos(r) == self@.system_time,
    {
        self.system_time
    }
}

} // verus!
