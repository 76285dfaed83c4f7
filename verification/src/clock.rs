//! Ages on the session clock.

use vstd::prelude::*;

verus! {

/// Nanoseconds in one second.
pub const NANOS_PER_SEC: u64 = 1_000_000_000;

/// Time that has passed at `now` since `instant`; zero where `now` lies before it.
pub open spec fn elapsed_since(now: u64, instant: u64) -> nat {
    if now >= instant {
        (now - instant) as nat
    } else {
        0
    }
}

/// Computes [`elapsed_since`].
pub fn elapsed(now: u64, instant: u64) -> (age: u64)
    ensures
        age == elapsed_since(now, instant),
{
    if now >= instant {
        now - instant
    } else {
        0
    }
}

/// Whole seconds in a span of nanoseconds.
pub fn whole_seconds(nanos: u64) -> (secs: u64)
    ensures
        secs == nanos / NANOS_PER_SEC,
{
    nanos / NANOS_PER_SEC
}

} // verus!
