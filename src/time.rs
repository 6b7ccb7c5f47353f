//! Points in time and spans of time, counted in microseconds.

use vstd::prelude::*;

verus! {

/// A point in time, in microseconds since an arbitrary origin.
#[derive(Clone, Copy, Debug, PartialEq, Eq, Structural)]
pub struct Instant {
    pub micros: i64,
}

/// A non-negative span of time, in microseconds.
#[derive(Clone, Copy, Debug, PartialEq, Eq, Structural)]
pub struct Duration {
    pub micros: u64,
}

/// The whole number of milliseconds in a span of `micros` microseconds.
pub open spec fn millis_of(micros: u64) -> u64 {
    micros / 1000
}

impl Instant {
    pub fn from_micros(micros: i64) -> (r: Instant)
        ensures
            r.micros == micros,
    {
        Instant { micros }
    }

    pub fn from_millis(millis: i64) -> (r: Instant)
        requires
            i64::MIN <= millis * 1000 <= i64::MAX,
        ensures
            r.micros == millis * 1000,
    {
        Instant { micros: millis * 1000 }
    }

    pub fn total_micros(&self) -> (r: i64)
        ensures
            r == self.micros,
    {
        self.micros
    }
}

impl Duration {
    pub fn from_micros(micros: u64) -> (r: Duration)
        ensures
            r.micros == micros,
    {
        Duration { micros }
    }

    pub fn from_millis(millis: u64) -> (r: Duration)
        requires
            millis * 1000 <= u64::MAX,
        ensures
            r.micros == millis * 1000,
    {
        Duration { micros: millis * 1000 }
    }

    pub fn total_micros(&self) -> (r: u64)
        ensures
            r == self.micros,
    {
        self.micros
    }

    /// The whole number of milliseconds, rounded down.
    pub fn total_millis(&self) -> (r: u64)
        ensures
            r == millis_of(self.micros),
    {
        self.micros / 1000
    }
}

} // verus!
