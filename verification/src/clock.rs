//! Readings of the monotonic clock and the lengths of `std` durations.

use vstd::prelude::*;
use std::time::{Duration, Instant};

verus! {

#[verifier::external_type_specification]
#[verifier::external_body]
pub struct ExInstant(std::time::Instant);

/// Nanoseconds in one second.
pub const NANOS_PER_SEC: u64 = 1_000_000_000;

/// The length of a duration in nanoseconds.
pub uninterp spec fn duration_nanos(duration: Duration) -> nat;

/// The whole seconds of a duration.
pub open spec fn duration_secs(duration: Duration) -> nat {
    duration_nanos(duration) / (NANOS_PER_SEC as nat)
}

/// `Instant::now`. Nothing is claimed about the reading.
#[verifier::external_body]
pub(crate) fn now() -> Instant {
    Instant::now()
}

/// `Instant::elapsed`. Nothing is claimed about the reading.
#[verifier::external_body]
pub(crate) fn elapsed(since: &Instant) -> Duration {
    since.elapsed()
}

/// `Duration::as_nanos`. Trusted: the length in nanoseconds.
#[verifier::external_body]
pub(crate) fn as_nanos(duration: &Duration) -> (nanos: u128)
    ensures
        nanos == duration_nanos(*duration),
{
    duration.as_nanos()
}

/// `Duration::as_secs`. Trusted: the whole seconds of the length.
#[verifier::external_body]
pub(crate) fn as_secs(duration: &Duration) -> (secs: u64)
    ensures
        secs == duration_secs(*duration),
{
    duration.as_secs()
}

/// `Duration::from_secs`. Trusted: a duration of exactly `secs` seconds.
#[verifier::external_body]
pub(crate) fn from_secs(secs: u64) -> (duration: Duration)
    ensures
        duration_nanos(duration) == secs * NANOS_PER_SEC,
{
    Duration::from_secs(secs)
}

} // verus!
