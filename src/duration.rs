//! What the library relies on of `std::time::Duration`.
//!
//! A duration is modelled by its length in nanoseconds.

use std::time::Duration;
use vstd::prelude::*;

verus! {

/// The length of a duration in whole nanoseconds, as `Duration::as_nanos` reports it.
pub uninterp spec fn duration_nanos(d: Duration) -> nat;

/// Nanoseconds in one second.
pub open spec fn nanos_per_sec() -> nat {
    1_000_000_000
}

/// Nanoseconds in one millisecond.
pub open spec fn nanos_per_milli() -> nat {
    1_000_000
}

/// The longest duration that can be represented: `u64::MAX` seconds and
/// 999,999,999 nanoseconds (`Duration::MAX`).
pub open spec fn max_nanos() -> nat {
    u64::MAX as nat * nanos_per_sec() + 999_999_999
}

/// Whole milliseconds in `nanos` nanoseconds, any finer part dropped.
pub open spec fn whole_millis(nanos: nat) -> nat {
    nanos / nanos_per_milli()
}

/// Whole milliseconds in `d`, any finer part dropped.
pub open spec fn duration_millis(d: Duration) -> nat {
    whole_millis(duration_nanos(d))
}

/// Relies on `Duration::new`: whole seconds plus nanoseconds, nanoseconds past
/// one second carried into the seconds; it panics when that carry overflows the
/// seconds, which `requires` leaves out.
pub assume_specification[ Duration::new ](secs: u64, nanos: u32) -> (r: Duration)
    requires
        secs as nat + nanos as nat / nanos_per_sec() <= u64::MAX as nat,
    ensures
        duration_nanos(r) == secs as nat * nanos_per_sec() + nanos as nat,
;

/// The most whole milliseconds a duration can hold.
pub open spec fn max_millis() -> nat {
    u64::MAX as nat * 1000 + 999
}

/// Relies on `Duration::as_millis`: the whole milliseconds of the duration,
/// which for `Duration::MAX` is `max_millis()`.
pub assume_specification[ Duration::as_millis ](d: &Duration) -> (r: u128)
    ensures
        r as nat == duration_millis(*d),
        r as nat <= max_millis(),
;

/// Relies on `Duration::checked_add`: the sum, or `None` where it would pass
/// `Duration::MAX`.
pub assume_specification[ Duration::checked_add ](d: Duration, rhs: Duration) -> (r: Option<
    Duration,
>)
    ensures
        r is Some <==> duration_nanos(d) + duration_nanos(rhs) <= max_nanos(),
        r matches Some(s) ==> duration_nanos(s) == duration_nanos(d) + duration_nanos(rhs),
;

/// Relies on `Duration::checked_sub`: the difference, or `None` where `rhs` is
/// the longer of the two.
pub assume_specification[ Duration::checked_sub ](d: Duration, rhs: Duration) -> (r: Option<
    Duration,
>)
    ensures
        r is Some <==> duration_nanos(d) >= duration_nanos(rhs),
        r matches Some(s) ==> duration_nanos(s) == duration_nanos(d) - duration_nanos(rhs),
;

/// The zero duration.
pub fn zero() -> (r: Duration)
    ensures
        duration_nanos(r) == 0,
{
    Duration::new(0, 0)
}

/// The duration of `millis` whole milliseconds, or `None` where that is longer
/// than any duration can be.
pub fn from_millis(millis: u128) -> (r: Option<Duration>)
    ensures
        r is Some <==> millis as nat <= max_millis(),
        r matches Some(d) ==> duration_nanos(d) == millis as nat * nanos_per_milli(),
{
    let secs: u128 = millis / 1000;
    if secs > u64::MAX as u128 {
        return None;
    }
    let sub_millis: u128 = millis % 1000;
    let nanos: u32 = (sub_millis * 1_000_000) as u32;
    proof {
        assert(millis as nat == secs as nat * 1000 + sub_millis as nat);
        assert(secs as nat * 1000 * 1_000_000 == secs as nat * nanos_per_sec())
            by (nonlinear_arith);
        assert(millis as nat * 1_000_000 == secs as nat * nanos_per_sec() + sub_millis as nat
            * 1_000_000) by (nonlinear_arith)
            requires
                millis as nat == secs as nat * 1000 + sub_millis as nat,
        ;
    }
    Some(Duration::new(secs as u64, nanos))
}

/// `a` plus `b`, each cut to whole milliseconds first; `None` where the sum
/// is longer than any duration can be.
pub fn add_millis(a: Duration, b: Duration) -> (r: Option<Duration>)
    ensures
        r is Some <==> duration_millis(a) + duration_millis(b) <= max_millis(),
        r matches Some(d) ==> duration_nanos(d) == (duration_millis(a) + duration_millis(b))
            * nanos_per_milli(),
{
    match b.as_millis().checked_add(a.as_millis()) {
        Some(sum) => from_millis(sum),
        None => None,
    }
}

/// `a` minus `b`, each cut to whole milliseconds first; `None` where `b` holds
/// more whole milliseconds than `a`.
pub fn sub_millis(a: Duration, b: Duration) -> (r: Option<Duration>)
    ensures
        r is Some <==> duration_millis(a) >= duration_millis(b),
        r matches Some(d) ==> duration_nanos(d) == (duration_millis(a) - duration_millis(b))
            * nanos_per_milli(),
{
    match a.as_millis().checked_sub(b.as_millis()) {
        Some(diff) => from_millis(diff),
        None => None,
    }
}

} // verus!
