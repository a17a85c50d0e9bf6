//! Durations and instants of the standard library.

use std::time::{Duration, Instant};
use vstd::prelude::*;

verus! {

/// A reading of the monotonic clock.
#[verifier::external_type_specification]
#[verifier::external_body]
pub struct ExInstant(Instant);

/// The length of a duration in nanoseconds.
pub uninterp spec fn nanos(d: Duration) -> nat;

/// Nanoseconds in one second.
pub const NANOS_PER_SEC: u128 = 1_000_000_000;

/// `Duration::as_nanos` gives the whole length.
pub assume_specification[ Duration::as_nanos ](d: &Duration) -> (n: u128)
    ensures
        n == nanos(*d),
;

/// `Duration::as_secs` gives the whole seconds.
pub assume_specification[ Duration::as_secs ](d: &Duration) -> (n: u64)
    ensures
        n == nanos(*d) / (NANOS_PER_SEC as nat),
;

/// `Duration::from_secs` makes a duration of so many seconds.
pub assume_specification[ Duration::from_secs ](secs: u64) -> (d: Duration)
    ensures
        nanos(d) == secs * NANOS_PER_SEC,
;

/// `Instant::now` reads the clock: nothing is known of the reading.
pub assume_specification[ Instant::now ]() -> (now: Instant)
;

/// The time from one instant to a later one, in nanoseconds.
pub uninterp spec fn nanos_between(later: Instant, earlier: Instant) -> nat;

/// `Instant::saturating_duration_since` gives the time between two readings of
/// the clock: a function of the two, and no time from a reading to itself. That
/// it is zero, too, where the second is the later one is not claimed.
pub assume_specification[ Instant::saturating_duration_since ](
    later: &Instant,
    earlier: Instant,
) -> (d: Duration)
    ensures
        nanos(d) == nanos_between(*later, earlier),
        *later == earlier ==> nanos(d) == 0,
;

/// The time from `last`, where there is one, to `now`, in nanoseconds.
pub open spec fn since(now: Instant, last: Option<Instant>) -> Option<nat> {
    match last {
        Some(at) => Some(nanos_between(now, at)),
        None => None,
    }
}

/// The length of a duration, where there is one, in nanoseconds.
pub open spec fn length(d: Option<Duration>) -> Option<nat> {
    match d {
        Some(d) => Some(nanos(d)),
        None => None,
    }
}

/// The time from `last`, where there is one, to `now`.
pub fn time_since(now: &Instant, last: &Option<Instant>) -> (d: Option<Duration>)
    ensures
        length(d) == since(*now, *last),
{
    match last {
        Some(at) => Some(now.saturating_duration_since(*at)),
        None => None,
    }
}

} // verus!
