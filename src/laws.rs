//! Laws that relate the operations of a worker's own clock and of the values
//! read from it.

use std::time::Duration;
use vstd::arithmetic::div_mod::lemma_div_is_ordered;
use vstd::arithmetic::mul::lemma_mul_inequality;
use vstd::prelude::*;

use crate::duration::{
    duration_millis, duration_nanos, max_millis, max_nanos, nanos_per_milli, whole_millis,
};
use crate::state::Readings;
use crate::platform::unix_offset_nanos;
use crate::thread_local::{Instant, MockClock, SystemTime};

verus! {

/// Setting the monotonic reading to `d1` and then advancing it by `d2` leaves
/// it at `d1 + d2`, whatever it read before.
pub proof fn lemma_set_then_advance(c: Readings, d1: Duration, d2: Duration)
    requires
        duration_nanos(d1) + duration_nanos(d2) <= max_nanos(),
    ensures
        c.with_time(duration_nanos(d1)).time + duration_nanos(d2) <= max_nanos(),
        c.with_time(duration_nanos(d1)).advanced(duration_nanos(d2)).time == duration_nanos(d1)
            + duration_nanos(d2),
{
}

/// An instant taken now reports exactly `d` as elapsed once the clock has been
/// advanced by `d`.
pub proof fn lemma_elapsed_after_advance(c: Readings, t: Instant, d: Duration)
    requires
        t@ == c.time,
        c.time + duration_nanos(d) <= max_nanos(),
    ensures
        t@ <= c.advanced(duration_nanos(d)).time,
        c.advanced(duration_nanos(d)).time - t@ == duration_nanos(d),
{
}

/// Adding durations to instants keeps their order: an instant no later than
/// another, moved by a duration no longer than the other's, ends up no later.
/// Where the later sum can be represented so can the earlier.
pub proof fn lemma_checked_add_keeps_order(t1: Instant, t2: Instant, d1: Duration, d2: Duration)
    requires
        t1@ <= t2@,
        duration_nanos(d1) <= duration_nanos(d2),
    ensures
        whole_millis(t1@) + duration_millis(d1) <= whole_millis(t2@) + duration_millis(d2),
        whole_millis(t2@) + duration_millis(d2) <= max_millis() ==> whole_millis(t1@)
            + duration_millis(d1) <= max_millis(),
        (whole_millis(t1@) + duration_millis(d1)) * nanos_per_milli() <= (whole_millis(t2@)
            + duration_millis(d2)) * nanos_per_milli(),
{
    lemma_div_is_ordered(t1@ as int, t2@ as int, nanos_per_milli() as int);
    lemma_div_is_ordered(
        duration_nanos(d1) as int,
        duration_nanos(d2) as int,
        nanos_per_milli() as int,
    );
    lemma_mul_inequality(
        (whole_millis(t1@) + duration_millis(d1)) as int,
        (whole_millis(t2@) + duration_millis(d2)) as int,
        nanos_per_milli() as int,
    );
}

/// Two reads of the monotonic reading, or of the wall-clock reading, with no
/// change to the clock in between, agree.
pub proof fn lemma_reads_agree(clock: MockClock, r1: Duration, r2: Duration, s1: Duration, s2: Duration)
    requires
        duration_nanos(r1) == clock@.time,
        duration_nanos(r2) == clock@.time,
        duration_nanos(s1) == clock@.system_time,
        duration_nanos(s2) == clock@.system_time,
    ensures
        duration_nanos(r1) == duration_nanos(r2),
        duration_nanos(s1) == duration_nanos(s2),
{
}

/// A platform time at or after `std::time::UNIX_EPOCH`, taken to a mock time
/// (`SystemTime::from_std`) and back (`SystemTime::to_std`), comes back exactly
/// as it was.
pub proof fn lemma_std_round_trip(
    t: std::time::SystemTime,
    m: SystemTime,
    back: Option<std::time::SystemTime>,
)
    requires
        unix_offset_nanos(t) >= 0,
        m@ == unix_offset_nanos(t),
        forall|t0: std::time::SystemTime| #[trigger]
            unix_offset_nanos(t0) == m@ ==> back == Some(t0),
    ensures
        back == Some(t),
{
}

} // verus!
