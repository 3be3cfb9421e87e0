//! Lengths of time, counted in whole nanoseconds.

use vstd::prelude::*;

verus! {

/// Nanoseconds in one millisecond.
pub const NANOS_PER_MILLI: u128 = 1_000_000;

/// The longest pause between two attempts of a retried operation: 100 ms.
pub const MAX_SLEEP_NANOS: u128 = 100_000_000;

/// A length of time. It is held as a count of nanoseconds, so every value is
/// meaningful and two spans are equal exactly when they last equally long.
#[derive(Clone, Copy, Debug, PartialEq, Eq, Structural)]
pub struct Span {
    pub nanos: u128,
}

impl Span {
    /// The span of `millis` milliseconds.
    pub fn from_millis(millis: u64) -> (span: Span)
        ensures
            span.nanos == millis * NANOS_PER_MILLI,
    {
        let wide: u128 = millis as u128;
        Span { nanos: wide * NANOS_PER_MILLI }
    }

    /// Whether `self` lasts strictly longer than `other`.
    pub fn exceeds(&self, other: &Span) -> (longer: bool)
        ensures
            longer == (self.nanos > other.nanos),
    {
        self.nanos > other.nanos
    }
}

/// The pause that a retried operation with the given timeout makes between
/// two attempts, as a number of nanoseconds: a tenth of the timeout, rounded
/// down, but never more than 100 ms.
pub open spec fn sleep_interval_nanos(timeout_nanos: nat) -> nat {
    if timeout_nanos / 10 < MAX_SLEEP_NANOS as nat {
        timeout_nanos / 10
    } else {
        MAX_SLEEP_NANOS as nat
    }
}

/// Computes the pause between two attempts for a timeout: `min(100 ms, timeout / 10)`.
pub fn sleep_interval(timeout: Span) -> (pause: Span)
    ensures
        pause.nanos == sleep_interval_nanos(timeout.nanos as nat),
        pause.nanos <= MAX_SLEEP_NANOS,
        10 * pause.nanos <= timeout.nanos,
{
    let tenth: u128 = timeout.nanos / 10;
    if tenth < MAX_SLEEP_NANOS {
        Span { nanos: tenth }
    } else {
        Span { nanos: MAX_SLEEP_NANOS }
    }
}

} // verus!
