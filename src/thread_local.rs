//! A clock that one worker owns.
//!
//! Each worker makes its own `MockClock`, which starts at zero and is changed
//! only through that worker's own calls: no other worker sees it or can move
//! it.

use std::time::Duration;
use vstd::prelude::*;

use crate::duration::{
    add_millis, duration_millis, duration_nanos, max_millis, max_nanos, nanos_per_milli,
    sub_millis, whole_millis,
};
use crate::platform::{after_unix_epoch, since_unix_epoch, unix_offset_nanos};
use crate::state::{ClockState, Readings};
use crate::SystemTimeError;

verus! {

/// A deterministic clock owned by one worker.
pub struct MockClock {
    state: ClockState,
}

impl View for MockClock {
    type V = Readings;

    closed spec fn view(&self) -> Readings {
        self.state@
    }
}

impl MockClock {
    /// A clock with both readings at zero.
    pub fn new() -> (r: MockClock)
        ensures
            r@ == (Readings { time: 0, system_time: 0 }),
    {
        MockClock { state: ClockState::new() }
    }

    /// Sets the monotonic reading to `time`.
    pub fn set_time(&mut self, time: Duration)
        ensures
            final(self)@ == old(self)@.with_time(duration_nanos(time)),
    {
        self.state.set_time(time);
    }

    /// Moves the monotonic reading forward by `time`.
    pub fn advance(&mut self, time: Duration)
        requires
            old(self)@.time + duration_nanos(time) <= max_nanos(),
        ensures
            final(self)@ == old(self)@.advanced(duration_nanos(time)),
    {
        self.state.advance(time);
    }

    /// The monotonic reading.
    pub fn time(&self) -> (r: Duration)
        ensures
            duration_nanos(r) == self@.time,
    {
        self.state.time()
    }

    /// Sets the wall-clock reading to `time`.
    pub fn set_system_time(&mut self, time: Duration)
        ensures
            final(self)@ == old(self)@.with_system_time(duration_nanos(time)),
    {
        self.state.set_system_time(time);
    }

    /// Moves the wall-clock reading forward by `time`.
    pub fn advance_system_time(&mut self, time: Duration)
        requires
            old(self)@.system_time + duration_nanos(time) <= max_nanos(),
        ensures
            final(self)@ == old(self)@.system_advanced(duration_nanos(time)),
    {
        self.state.advance_system_time(time);
    }

    /// The wall-clock reading.
    pub fn system_time(&self) -> (r: Duration)
        ensures
            duration_nanos(r) == self@.system_time,
    {
        self.state.system_time()
    }

    /// Whether this clock belongs to one worker alone: it does.
    pub fn is_thread_local() -> (r: bool)
        ensures
            r,
    {
        true
    }
}

/// A point on the monotonic reading of a `MockClock`.
#[derive(Clone, Copy, Debug, PartialEq, Eq, PartialOrd, Ord, Hash)]
pub struct Instant(Duration);

impl View for Instant {
    type V = nat;

    /// How far past the clock's origin this instant lies, in nanoseconds.
    closed spec fn view(&self) -> nat {
        duration_nanos(self.0)
    }
}

impl Instant {
    /// The clock's monotonic reading now.
    pub fn now(clock: &MockClock) -> (r: Instant)
        ensures
            r@ == clock@.time,
    {
        Instant(clock.time())
    }

    /// How long after `earlier` this instant lies; `earlier` may not be the later of the two.
    pub fn duration_since(&self, earlier: Instant) -> (r: Duration)
        requires
            earlier@ <= self@,
        ensures
            duration_nanos(r) == self@ - earlier@,
    {
        self.0.checked_sub(earlier.0).unwrap()
    }

    /// How long after `earlier` this instant lies, or `None` where `earlier` is the later.
    pub fn checked_duration_since(&self, earlier: Instant) -> (r: Option<Duration>)
        ensures
            r is Some <==> earlier@ <= self@,
            r matches Some(d) ==> duration_nanos(d) == self@ - earlier@,
    {
        self.0.checked_sub(earlier.0)
    }

    /// How long after `earlier` this instant lies, or zero where `earlier` is the later.
    pub fn saturating_duration_since(&self, earlier: Instant) -> (r: Duration)
        ensures
            duration_nanos(r) == if earlier@ <= self@ {
                self@ - earlier@
            } else {
                0
            },
    {
        match self.checked_duration_since(earlier) {
            Some(d) => d,
            None => crate::duration::zero(),
        }
    }

    /// How long has passed since this instant on `clock`, which may not have
    /// been set back before it.
    pub fn elapsed(&self, clock: &MockClock) -> (r: Duration)
        requires
            self@ <= clock@.time,
        ensures
            duration_nanos(r) == clock@.time - self@,
    {
        Instant::now(clock).duration_since(*self)
    }

    /// This instant moved `duration` later, both cut to whole milliseconds;
    /// `None` where that lies past the longest duration.
    pub fn checked_add(&self, duration: Duration) -> (r: Option<Instant>)
        ensures
            r is Some <==> whole_millis(self@) + duration_millis(duration) <= max_millis(),
            r matches Some(i) ==> i@ == (whole_millis(self@) + duration_millis(duration))
                * nanos_per_milli(),
    {
        match add_millis(self.0, duration) {
            Some(d) => Some(Instant(d)),
            None => None,
        }
    }

    /// This instant moved `duration` earlier, both cut to whole milliseconds;
    /// `None` where that lies before the origin.
    pub fn checked_sub(&self, duration: Duration) -> (r: Option<Instant>)
        ensures
            r is Some <==> whole_millis(self@) >= duration_millis(duration),
            r matches Some(i) ==> i@ == (whole_millis(self@) - duration_millis(duration))
                * nanos_per_milli(),
    {
        match sub_millis(self.0, duration) {
            Some(d) => Some(Instant(d)),
            None => None,
        }
    }

    /// Whether the clock this instant reads belongs to one worker alone: it does.
    pub fn is_thread_local(&self) -> (r: bool)
        ensures
            r,
    {
        true
    }
}

impl std::ops::Add<Duration> for Instant {
    type Output = Instant;

    /// `checked_add`, for sums known to be representable.
    fn add(self, rhs: Duration) -> (r: Instant)
        ensures
            r@ == (whole_millis(self@) + duration_millis(rhs)) * nanos_per_milli(),
    {
        self.checked_add(rhs).unwrap()
    }
}

impl vstd::std_specs::ops::AddSpecImpl<Duration> for Instant {
    open spec fn obeys_add_spec() -> bool {
        false
    }

    open spec fn add_req(self, rhs: Duration) -> bool {
        whole_millis(self@) + duration_millis(rhs) <= max_millis()
    }

    open spec fn add_spec(self, rhs: Duration) -> Instant {
        arbitrary()
    }
}

impl std::ops::Sub<Duration> for Instant {
    type Output = Instant;

    /// `checked_sub`, for differences known not to fall before the origin.
    fn sub(self, rhs: Duration) -> (r: Instant)
        ensures
            r@ == (whole_millis(self@) - duration_millis(rhs)) * nanos_per_milli(),
    {
        self.checked_sub(rhs).unwrap()
    }
}

impl vstd::std_specs::ops::SubSpecImpl<Duration> for Instant {
    open spec fn obeys_sub_spec() -> bool {
        false
    }

    open spec fn sub_req(self, rhs: Duration) -> bool {
        whole_millis(self@) >= duration_millis(rhs)
    }

    open spec fn sub_spec(self, rhs: Duration) -> Instant {
        arbitrary()
    }
}

impl std::ops::Sub<Instant> for Instant {
    type Output = Duration;

    /// `duration_since`: `rhs` may not be the later of the two.
    fn sub(self, rhs: Instant) -> (r: Duration)
        ensures
            duration_nanos(r) == self@ - rhs@,
    {
        self.duration_since(rhs)
    }
}

impl vstd::std_specs::ops::SubSpecImpl<Instant> for Instant {
    open spec fn obeys_sub_spec() -> bool {
        false
    }

    open spec fn sub_req(self, rhs: Instant) -> bool {
        rhs@ <= self@
    }

    open spec fn sub_spec(self, rhs: Instant) -> Duration {
        arbitrary()
    }
}

impl std::ops::AddAssign<Duration> for Instant {
    /// `+`, in place.
    fn add_assign(&mut self, rhs: Duration)
        requires
            whole_millis(old(self)@) + duration_millis(rhs) <= max_millis(),
        ensures
            final(self)@ == (whole_millis(old(self)@) + duration_millis(rhs)) * nanos_per_milli(),
    {
        *self = *self + rhs;
    }
}

impl std::ops::SubAssign<Duration> for Instant {
    /// `-`, in place: this may not fall before the origin.
    fn sub_assign(&mut self, rhs: Duration)
        requires
            whole_millis(old(self)@) >= duration_millis(rhs),
        ensures
            final(self)@ == (whole_millis(old(self)@) - duration_millis(rhs)) * nanos_per_milli(),
    {
        *self = *self - rhs;
    }
}

/// A point on the wall-clock reading of a `MockClock`, measured from a mock
/// epoch at zero.
#[derive(Clone, Copy, Debug, PartialEq, Eq, PartialOrd, Ord, Hash)]
pub struct SystemTime(Duration);

impl View for SystemTime {
    type V = nat;

    /// How far past the mock epoch this time lies, in nanoseconds.
    closed spec fn view(&self) -> nat {
        duration_nanos(self.0)
    }
}

impl SystemTime {
    /// The mock epoch: the wall-clock reading zero.
    pub fn unix_epoch() -> (r: SystemTime)
        ensures
            r@ == 0,
    {
        SystemTime(crate::duration::zero())
    }

    /// The clock's wall-clock reading now.
    pub fn now(clock: &MockClock) -> (r: SystemTime)
        ensures
            r@ == clock@.system_time,
    {
        SystemTime(clock.system_time())
    }

    /// How long after `earlier` this time lies, or, where `earlier` is the
    /// later, an error that holds how much later it is.
    pub fn duration_since(&self, earlier: SystemTime) -> (r: Result<Duration, SystemTimeError>)
        ensures
            r is Ok <==> earlier@ <= self@,
            r matches Ok(d) ==> duration_nanos(d) == self@ - earlier@,
            r matches Err(e) ==> duration_nanos(e.spec_duration()) == earlier@ - self@,
    {
        match self.0.checked_sub(earlier.0) {
            Some(d) => Ok(d),
            None => Err(SystemTimeError::new(earlier.0.checked_sub(self.0).unwrap())),
        }
    }

    /// How long has passed since this time on `clock`, or, where the clock
    /// reads earlier, an error that holds how much earlier.
    pub fn elapsed(&self, clock: &MockClock) -> (r: Result<Duration, SystemTimeError>)
        ensures
            r is Ok <==> self@ <= clock@.system_time,
            r matches Ok(d) ==> duration_nanos(d) == clock@.system_time - self@,
            r matches Err(e) ==> duration_nanos(e.spec_duration()) == self@
                - clock@.system_time,
    {
        SystemTime::now(clock).duration_since(*self)
    }

    /// This time moved `duration` later, both cut to whole milliseconds;
    /// `None` where that lies past the longest duration.
    pub fn checked_add(&self, duration: Duration) -> (r: Option<SystemTime>)
        ensures
            r is Some <==> whole_millis(self@) + duration_millis(duration) <= max_millis(),
            r matches Some(t) ==> t@ == (whole_millis(self@) + duration_millis(duration))
                * nanos_per_milli(),
    {
        match add_millis(self.0, duration) {
            Some(d) => Some(SystemTime(d)),
            None => None,
        }
    }

    /// This time moved `duration` earlier, both cut to whole milliseconds;
    /// `None` where that lies before the mock epoch.
    pub fn checked_sub(&self, duration: Duration) -> (r: Option<SystemTime>)
        ensures
            r is Some <==> whole_millis(self@) >= duration_millis(duration),
            r matches Some(t) ==> t@ == (whole_millis(self@) - duration_millis(duration))
                * nanos_per_milli(),
    {
        match sub_millis(self.0, duration) {
            Some(d) => Some(SystemTime(d)),
            None => None,
        }
    }

    /// The platform time `t` as a mock time: the mock epoch stands for
    /// `std::time::UNIX_EPOCH`. `None` where `t` lies before that epoch.
    pub fn from_std(t: std::time::SystemTime) -> (r: Option<SystemTime>)
        ensures
            r is Some <==> unix_offset_nanos(t) >= 0,
            r matches Some(m) ==> m@ == unix_offset_nanos(t),
    {
        match since_unix_epoch(t) {
            Some(d) => Some(SystemTime(d)),
            None => None,
        }
    }

    /// This time as a platform time, the mock epoch standing for
    /// `std::time::UNIX_EPOCH`: the platform time that lies exactly this far
    /// after that epoch, wherever the platform has one.
    pub fn to_std(&self) -> (r: Option<std::time::SystemTime>)
        ensures
            forall|t0: std::time::SystemTime| #[trigger]
                unix_offset_nanos(t0) == self@ ==> r == Some(t0),
    {
        after_unix_epoch(self.0)
    }

    /// Whether the clock this time reads belongs to one worker alone: it does.
    pub fn is_thread_local(&self) -> (r: bool)
        ensures
            r,
    {
        true
    }
}

impl std::ops::Add<Duration> for SystemTime {
    type Output = SystemTime;

    /// `checked_add`, for sums known to be representable.
    fn add(self, rhs: Duration) -> (r: SystemTime)
        ensures
            r@ == (whole_millis(self@) + duration_millis(rhs)) * nanos_per_milli(),
    {
        self.checked_add(rhs).unwrap()
    }
}

impl vstd::std_specs::ops::AddSpecImpl<Duration> for SystemTime {
    open spec fn obeys_add_spec() -> bool {
        false
    }

    open spec fn add_req(self, rhs: Duration) -> bool {
        whole_millis(self@) + duration_millis(rhs) <= max_millis()
    }

    open spec fn add_spec(self, rhs: Duration) -> SystemTime {
        arbitrary()
    }
}

impl std::ops::Sub<Duration> for SystemTime {
    type Output = SystemTime;

    /// `checked_sub`, for differences known not to fall before the mock epoch.
    fn sub(self, rhs: Duration) -> (r: SystemTime)
        ensures
            r@ == (whole_millis(self@) - duration_millis(rhs)) * nanos_per_milli(),
    {
        self.checked_sub(rhs).unwrap()
    }
}

impl vstd::std_specs::ops::SubSpecImpl<Duration> for SystemTime {
    open spec fn obeys_sub_spec() -> bool {
        false
    }

    open spec fn sub_req(self, rhs: Duration) -> bool {
        whole_millis(self@) >= duration_millis(rhs)
    }

    open spec fn sub_spec(self, rhs: Duration) -> SystemTime {
        arbitrary()
    }
}

impl std::ops::AddAssign<Duration> for SystemTime {
    /// `+`, in place.
    fn add_assign(&mut self, rhs: Duration)
        requires
            whole_millis(old(self)@) + duration_millis(rhs) <= max_millis(),
        ensures
            final(self)@ == (whole_millis(old(self)@) + duration_millis(rhs)) * nanos_per_milli(),
    {
        *self = *self + rhs;
    }
}

impl std::ops::SubAssign<Duration> for SystemTime {
    /// `-`, in place: this may not fall before the mock epoch.
    fn sub_assign(&mut self, rhs: Duration)
        requires
            whole_millis(old(self)@) >= duration_millis(rhs),
        ensures
            final(self)@ == (whole_millis(old(self)@) - duration_millis(rhs)) * nanos_per_milli(),
    {
        *self = *self - rhs;
    }
}

} // verus!
