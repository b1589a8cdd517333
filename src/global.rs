//! A clock that every worker holding a handle to it shares.
//!
//! `MockClock::new` makes one store; cloning the handle gives another worker
//! access to that same store. Each read and each change happens under the
//! store's lock, so no worker sees half a change. What another worker did in
//! between two calls is not known to the caller, so the readings here come
//! with no promise of their value; the arithmetic on what was read is exact.

use std::sync::Arc;
use std::time::Duration;
use vstd::prelude::*;
use vstd::rwlock::{RwLock, RwLockPredicate};

use crate::duration::{
    add_millis, duration_millis, duration_nanos, max_millis, nanos_per_milli, sub_millis,
    whole_millis,
};
use crate::platform::{after_unix_epoch, since_unix_epoch, unix_offset_nanos};
use crate::state::ClockState;
use crate::SystemTimeError;

verus! {

/// What the lock of a shared clock admits: any state.
struct AnyState;

impl RwLockPredicate<ClockState> for AnyState {
    open spec fn inv(self, s: ClockState) -> bool {
        true
    }
}

/// A handle to a deterministic clock shared by every worker that holds a clone of it.
#[derive(Clone)]
pub struct MockClock {
    state: Arc<RwLock<ClockState, AnyState>>,
}

impl MockClock {
    /// A new shared clock with both readings at zero.
    pub fn new() -> (r: MockClock) {
        let state = RwLock::new(ClockState::new(), Ghost(AnyState));
        MockClock { state: Arc::new(state) }
    }

    /// Sets the monotonic reading to `time`.
    pub fn set_time(&self, time: Duration) {
        let (mut state, handle) = self.state.acquire_write();
        state.set_time(time);
        handle.release_write(state);
    }

    /// Moves the monotonic reading forward by `time`. Returns `false`, and
    /// leaves the reading as it was, where the sum cannot be represented.
    pub fn advance(&self, time: Duration) -> (done: bool) {
        let (mut state, handle) = self.state.acquire_write();
        let done = state.advance(time);
        handle.release_write(state);
        done
    }

    /// The monotonic reading.
    pub fn time(&self) -> (r: Duration) {
        let handle = self.state.acquire_read();
        let r = handle.borrow().time();
        handle.release_read();
        r
    }

    /// Sets the wall-clock reading to `time`.
    pub fn set_system_time(&self, time: Duration) {
        let (mut state, handle) = self.state.acquire_write();
        state.set_system_time(time);
        handle.release_write(state);
    }

    /// Moves the wall-clock reading forward by `time`. Returns `false`, and
    /// leaves the reading as it was, where the sum cannot be represented.
    pub fn advance_system_time(&self, time: Duration) -> (done: bool) {
        let (mut state, handle) = self.state.acquire_write();
        let done = state.advance_system_time(time);
        handle.release_write(state);
        done
    }

    /// The wall-clock reading.
    pub fn system_time(&self) -> (r: Duration) {
        let handle = self.state.acquire_read();
        let r = handle.borrow().system_time();
        handle.release_read();
        r
    }

    /// Whether this clock belongs to one worker alone: it does not.
    pub fn is_thread_local() -> (r: bool)
        ensures
            !r,
    {
        false
    }
}

/// A point on the monotonic reading of a `MockClock`.
#[derive(Clone, Copy, Debug, PartialEq, Eq, PartialOrd, Ord, Hash)]
pub struct Instant(Duration);

impl View for Instant {
    type V = nat;

    /// How far past the clock's origin this instant lies, in nanoseconds.
    closed spec fn view(&self) -> nat {
        duration_nanos(self.0)
    }
}

impl Instant {
    /// The clock's monotonic reading now.
    pub fn now(clock: &MockClock) -> (r: Instant) {
        Instant(clock.time())
    }

    /// How long after `earlier` this instant lies; `earlier` may not be the later of the two.
    pub fn duration_since(&self, earlier: Instant) -> (r: Duration)
        requires
            earlier@ <= self@,
        ensures
            duration_nanos(r) == self@ - earlier@,
    {
        self.0.checked_sub(earlier.0).unwrap()
    }

    /// How long after `earlier` this instant lies, or `None` where `earlier` is the later.
    pub fn checked_duration_since(&self, earlier: Instant) -> (r: Option<Duration>)
        ensures
            r is Some <==> earlier@ <= self@,
            r matches Some(d) ==> duration_nanos(d) == self@ - earlier@,
    {
        self.0.checked_sub(earlier.0)
    }

    /// How long after `earlier` this instant lies, or zero where `earlier` is the later.
    pub fn saturating_duration_since(&self, earlier: Instant) -> (r: Duration)
        ensures
            duration_nanos(r) == if earlier@ <= self@ {
                self@ - earlier@
            } else {
                0
            },
    {
        match self.checked_duration_since(earlier) {
            Some(d) => d,
            None => crate::duration::zero(),
        }
    }

    /// How long has passed since this instant on `clock`, or `None` where the
    /// clock has been set back before it.
    pub fn elapsed(&self, clock: &MockClock) -> (r: Option<Duration>)
        ensures
            r is None ==> self@ > 0,
    {
        Instant::now(clock).checked_duration_since(*self)
    }

    /// This instant moved `duration` later, both cut to whole milliseconds;
    /// `None` where that lies past the longest duration.
    pub fn checked_add(&self, duration: Duration) -> (r: Option<Instant>)
        ensures
            r is Some <==> whole_millis(self@) + duration_millis(duration) <= max_millis(),
            r matches Some(i) ==> i@ == (whole_millis(self@) + duration_millis(duration))
                * nanos_per_milli(),
    {
        match add_millis(self.0, duration) {
            Some(d) => Some(Instant(d)),
            None => None,
        }
    }

    /// This instant moved `duration` earlier, both cut to whole milliseconds;
    /// `None` where that lies before the origin.
    pub fn checked_sub(&self, duration: Duration) -> (r: Option<Instant>)
        ensures
            r is Some <==> whole_millis(self@) >= duration_millis(duration),
            r matches Some(i) ==> i@ == (whole_millis(self@) - duration_millis(duration))
                * nanos_per_milli(),
    {
        match sub_millis(self.0, duration) {
            Some(d) => Some(Instant(d)),
            None => None,
        }
    }

    /// Whether the clock this instant reads belongs to one worker alone: it does not.
    pub fn is_thread_local(&self) -> (r: bool)
        ensures
            !r,
    {
        false
    }
}

impl std::ops::Add<Duration> for Instant {
    type Output = Instant;

    /// `checked_add`, for sums known to be representable.
    fn add(self, rhs: Duration) -> (r: Instant)
        ensures
            r@ == (whole_millis(self@) + duration_millis(rhs)) * nanos_per_milli(),
    {
        self.checked_add(rhs).unwrap()
    }
}

impl vstd::std_specs::ops::AddSpecImpl<Duration> for Instant {
    open spec fn obeys_add_spec() -> bool {
        false
    }

    open spec fn add_req(self, rhs: Duration) -> bool {
        whole_millis(self@) + duration_millis(rhs) <= max_millis()
    }

    open spec fn add_spec(self, rhs: Duration) -> Instant {
        arbitrary()
    }
}

impl std::ops::Sub<Duration> for Instant {
    type Output = Instant;

    /// `checked_sub`, for differences known not to fall before the origin.
    fn sub(self, rhs: Duration) -> (r: Instant)
        ensures
            r@ == (whole_millis(self@) - duration_millis(rhs)) * nanos_per_milli(),
    {
        self.checked_sub(rhs).unwrap()
    }
}

impl vstd::std_specs::ops::SubSpecImpl<Duration> for Instant {
    open spec fn obeys_sub_spec() -> bool {
        false
    }

    open spec fn sub_req(self, rhs: Duration) -> bool {
        whole_millis(self@) >= duration_millis(rhs)
    }

    open spec fn sub_spec(self, rhs: Duration) -> Instant {
        arbitrary()
    }
}

impl std::ops::Sub<Instant> for Instant {
    type Output = Duration;

    /// `duration_since`: `rhs` may not be the later of the two.
    fn sub(self, rhs: Instant) -> (r: Duration)
        ensures
            duration_nanos(r) == self@ - rhs@,
    {
        self.duration_since(rhs)
    }
}

impl vstd::std_specs::ops::SubSpecImpl<Instant> for Instant {
    open spec fn obeys_sub_spec() -> bool {
        false
    }

    open spec fn sub_req(self, rhs: Instant) -> bool {
        rhs@ <= self@
    }

    open spec fn sub_spec(self, rhs: Instant) -> Duration {
        arbitrary()
    }
}

impl std::ops::AddAssign<Duration> for Instant {
    /// `+`, in place.
    fn add_assign(&mut self, rhs: Duration)
        requires
            whole_millis(old(self)@) + duration_millis(rhs) <= max_millis(),
        ensures
            final(self)@ == (whole_millis(old(self)@) + duration_millis(rhs)) * nanos_per_milli(),
    {
        *self = *self + rhs;
    }
}

impl std::ops::SubAssign<Duration> for Instant {
    /// `-`, in place: this may not fall before the origin.
    fn sub_assign(&mut self, rhs: Duration)
        requires
            whole_millis(old(self)@) >= duration_millis(rhs),
        ensures
            final(self)@ == (whole_millis(old(self)@) - duration_millis(rhs)) * nanos_per_milli(),
    {
        *self = *self - rhs;
    }
}

/// A point on the wall-clock reading of a `MockClock`, measured from a mock
/// epoch at zero.
#[derive(Clone, Copy, Debug, PartialEq, Eq, PartialOrd, Ord, Hash)]
pub struct SystemTime(Duration);

impl View for SystemTime {
    type V = nat;

    /// How far past the mock epoch this time lies, in nanoseconds.
    closed spec fn view(&self) -> nat {
        duration_nanos(self.0)
    }
}

impl SystemTime {
    /// The mock epoch: the wall-clock reading zero.
    pub fn unix_epoch() -> (r: SystemTime)
        ensures
            r@ == 0,
    {
        SystemTime(crate::duration::zero())
    }

    /// The clock's wall-clock reading now.
    pub fn now(clock: &MockClock) -> (r: SystemTime) {
        SystemTime(clock.system_time())
    }

    /// How long after `earlier` this time lies, or, where `earlier` is the
    /// later, an error that holds how much later it is.
    pub fn duration_since(&self, earlier: SystemTime) -> (r: Result<Duration, SystemTimeError>)
        ensures
            r is Ok <==> earlier@ <= self@,
            r matches Ok(d) ==> duration_nanos(d) == self@ - earlier@,
            r matches Err(e) ==> duration_nanos(e.spec_duration()) == earlier@ - self@,
    {
        match self.0.checked_sub(earlier.0) {
            Some(d) => Ok(d),
            None => Err(SystemTimeError::new(earlier.0.checked_sub(self.0).unwrap())),
        }
    }

    /// How long has passed since this time on `clock`, or, where the clock
    /// reads earlier, an error that holds how much earlier.
    pub fn elapsed(&self, clock: &MockClock) -> (r: Result<Duration, SystemTimeError>)
        ensures
            r matches Err(e) ==> 0 < duration_nanos(e.spec_duration()) <= self@,
    {
        SystemTime::now(clock).duration_since(*self)
    }

    /// This time moved `duration` later, both cut to whole milliseconds;
    /// `None` where that lies past the longest duration.
    pub fn checked_add(&self, duration: Duration) -> (r: Option<SystemTime>)
        ensures
            r is Some <==> whole_millis(self@) + duration_millis(duration) <= max_millis(),
            r matches Some(t) ==> t@ == (whole_millis(self@) + duration_millis(duration))
                * nanos_per_milli(),
    {
        match add_millis(self.0, duration) {
            Some(d) => Some(SystemTime(d)),
            None => None,
        }
    }

    /// This time moved `duration` earlier, both cut to whole milliseconds;
    /// `None` where that lies before the mock epoch.
    pub fn checked_sub(&self, duration: Duration) -> (r: Option<SystemTime>)
        ensures
            r is Some <==> whole_millis(self@) >= duration_millis(duration),
            r matches Some(t) ==> t@ == (whole_millis(self@) - duration_millis(duration))
                * nanos_per_milli(),
    {
        match sub_millis(self.0, duration) {
            Some(d) => Some(SystemTime(d)),
            None => None,
        }
    }

    /// The platform time `t` as a mock time: the mock epoch stands for
    /// `std::time::UNIX_EPOCH`. `None` where `t` lies before that epoch.
    pub fn from_std(t: std::time::SystemTime) -> (r: Option<SystemTime>)
        ensures
            r is Some <==> unix_offset_nanos(t) >= 0,
            r matches Some(m) ==> m@ == unix_offset_nanos(t),
    {
        match since_unix_epoch(t) {
            Some(d) => Some(SystemTime(d)),
            None => None,
        }
    }

    /// This time as a platform time, the mock epoch standing for
    /// `std::time::UNIX_EPOCH`: the platform time that lies exactly this far
    /// after that epoch, wherever the platform has one.
    pub fn to_std(&self) -> (r: Option<std::time::SystemTime>)
        ensures
            forall|t0: std::time::SystemTime| #[trigger]
                unix_offset_nanos(t0) == self@ ==> r == Some(t0),
    {
        after_unix_epoch(self.0)
    }

    /// Whether the clock this time reads belongs to one worker alone: it does not.
    pub fn is_thread_local(&self) -> (r: bool)
        ensures
            !r,
    {
        false
    }
}

impl std::ops::Add<Duration> for SystemTime {
    type Output = SystemTime;

    /// `checked_add`, for sums known to be representable.
    fn add(self, rhs: Duration) -> (r: SystemTime)
        ensures
            r@ == (whole_millis(self@) + duration_millis(rhs)) * nanos_per_milli(),
    {
        self.checked_add(rhs).unwrap()
    }
}

impl vstd::std_specs::ops::AddSpecImpl<Duration> for SystemTime {
    open spec fn obeys_add_spec() -> bool {
        false
    }

    open spec fn add_req(self, rhs: Duration) -> bool {
        whole_millis(self@) + duration_millis(rhs) <= max_millis()
    }

    open spec fn add_spec(self, rhs: Duration) -> SystemTime {
        arbitrary()
    }
}

impl std::ops::Sub<Duration> for SystemTime {
    type Output = SystemTime;

    /// `checked_sub`, for differences known not to fall before the mock epoch.
    fn sub(self, rhs: Duration) -> (r: SystemTime)
        ensures
            r@ == (whole_millis(self@) - duration_millis(rhs)) * nanos_per_milli(),
    {
        self.checked_sub(rhs).unwrap()
    }
}

impl vstd::std_specs::ops::SubSpecImpl<Duration> for SystemTime {
    open spec fn obeys_sub_spec() -> bool {
        false
    }

    open spec fn sub_req(self, rhs: Duration) -> bool {
        whole_millis(self@) >= duration_millis(rhs)
    }

    open spec fn sub_spec(self, rhs: Duration) -> SystemTime {
        arbitrary()
    }
}

impl std::ops::AddAssign<Duration> for SystemTime {
    /// `+`, in place.
    fn add_assign(&mut self, rhs: Duration)
        requires
            whole_millis(old(self)@) + duration_millis(rhs) <= max_millis(),
        ensures
            final(self)@ == (whole_millis(old(self)@) + duration_millis(rhs)) * nanos_per_milli(),
    {
        *self = *self + rhs;
    }
}

impl std::ops::SubAssign<Duration> for SystemTime {
    /// `-`, in place: this may not fall before the mock epoch.
    fn sub_assign(&mut self, rhs: Duration)
        requires
            whole_millis(old(self)@) >= duration_millis(rhs),
        ensures
            final(self)@ == (whole_millis(old(self)@) - duration_millis(rhs)) * nanos_per_milli(),
    {
        *self = *self - rhs;
    }
}

} // verus!
