//! What the library relies on of the platform's own wall-clock time,
//! `std::time::SystemTime`.

use std::time::Duration;
use vstd::prelude::*;

use crate::duration::duration_nanos;

verus! {

#[verifier::external_type_specification]
#[verifier::external_body]
pub struct ExStdSystemTime(std::time::SystemTime);

/// How far a platform time lies from `std::time::UNIX_EPOCH`, in nanoseconds,
/// negative before it, as `SystemTime::duration_since(UNIX_EPOCH)` reports it.
pub uninterp spec fn unix_offset_nanos(t: std::time::SystemTime) -> int;

/// Relies on `std::time::SystemTime::duration_since` with `UNIX_EPOCH` as the
/// earlier time: the time since the epoch, or an error where `t` lies before it.
#[verifier::external_body]
pub(crate) fn since_unix_epoch(t: std::time::SystemTime) -> (r: Option<Duration>)
    ensures
        r is Some <==> unix_offset_nanos(t) >= 0,
        r matches Some(d) ==> duration_nanos(d) == unix_offset_nanos(t),
{
    t.duration_since(std::time::UNIX_EPOCH).ok()
}

/// Relies on `std::time::SystemTime::checked_add` on `UNIX_EPOCH`: where some
/// platform time lies exactly `d` after the epoch, that time is the result.
/// Nothing is said where none does (a point finer than the platform keeps,
/// or out of its range).
#[verifier::external_body]
pub(crate) fn after_unix_epoch(d: Duration) -> (r: Option<std::time::SystemTime>)
    ensures
        forall|t0: std::time::SystemTime| #[trigger]
            unix_offset_nanos(t0) == duration_nanos(d) ==> r == Some(t0),
{
    std::time::UNIX_EPOCH.checked_add(d)
}

} // verus!
