//! Virtual points in time and spans between them, counted in nanoseconds.
//!
//! The harness never consults a wall clock: an [`Instant`] is a plain
//! nanosecond count on the virtual timeline of a [`crate::clock::Clock`],
//! and a [`Duration`] is a plain nanosecond span. Differences saturate at
//! zero and sums saturate at the top of the range, so no arithmetic here
//! can panic or silently wrap.

use vstd::prelude::*;

use crate::clock::Clock;

verus! {

/// A span of virtual time, counted in nanoseconds.
#[derive(Clone, Copy, Debug, PartialEq, Eq, Structural)]
pub struct Duration {
    nanos: u128,
}

impl Duration {
    /// The span's length in nanoseconds.
    pub closed spec fn spec_nanos(&self) -> u128 {
        self.nanos
    }

    /// A span of `nanos` nanoseconds.
    pub fn from_nanos(nanos: u128) -> (d: Duration)
        ensures
            d.spec_nanos() == nanos,
    {
        Duration { nanos }
    }

    /// A span of `micros` microseconds.
    pub fn from_micros(micros: u64) -> (d: Duration)
        ensures
            d.spec_nanos() == micros * 1_000,
    {
        Duration { nanos: (micros as u128) * 1_000 }
    }

    /// A span of `millis` milliseconds.
    pub fn from_millis(millis: u64) -> (d: Duration)
        ensures
            d.spec_nanos() == millis * 1_000_000,
    {
        Duration { nanos: (millis as u128) * 1_000_000 }
    }

    /// A span of `secs` seconds.
    pub fn from_secs(secs: u64) -> (d: Duration)
        ensures
            d.spec_nanos() == secs * 1_000_000_000,
    {
        Duration { nanos: (secs as u128) * 1_000_000_000 }
    }

    /// The span's length in nanoseconds.
    pub fn as_nanos(&self) -> (n: u128)
        ensures
            n == self.spec_nanos(),
    {
        self.nanos
    }
}

/// A point on the virtual timeline, counted in nanoseconds from the
/// timeline's origin.
#[derive(Clone, Copy, Debug, PartialEq, Eq, Structural)]
pub struct Instant {
    nanos: u128,
}

impl Instant {
    /// The point's position in nanoseconds from the timeline's origin.
    pub closed spec fn spec_nanos(&self) -> u128 {
        self.nanos
    }

    /// The point `nanos` nanoseconds from the timeline's origin.
    pub fn from_nanos(nanos: u128) -> (t: Instant)
        ensures
            t.spec_nanos() == nanos,
    {
        Instant { nanos }
    }

    /// The point's position in nanoseconds from the timeline's origin.
    pub fn as_nanos(&self) -> (n: u128)
        ensures
            n == self.spec_nanos(),
    {
        self.nanos
    }

    /// The span from `earlier` to this point, or a zero span if `earlier`
    /// is in fact the later of the two.
    pub fn duration_since(&self, earlier: Instant) -> (d: Duration)
        ensures
            self.spec_nanos() >= earlier.spec_nanos() ==> d.spec_nanos() == self.spec_nanos()
                - earlier.spec_nanos(),
            self.spec_nanos() < earlier.spec_nanos() ==> d.spec_nanos() == 0,
    {
        if self.nanos >= earlier.nanos {
            Duration { nanos: self.nanos - earlier.nanos }
        } else {
            Duration { nanos: 0 }
        }
    }

    /// The span from `earlier` to this point, or `None` if `earlier` is in
    /// fact the later of the two.
    pub fn checked_duration_since(&self, earlier: Instant) -> (r: Option<Duration>)
        ensures
            self.spec_nanos() >= earlier.spec_nanos() ==> (r matches Some(d) && d.spec_nanos()
                == self.spec_nanos() - earlier.spec_nanos()),
            self.spec_nanos() < earlier.spec_nanos() ==> r is None,
    {
        if self.nanos >= earlier.nanos {
            Some(Duration { nanos: self.nanos - earlier.nanos })
        } else {
            None
        }
    }

    /// The span from `earlier` to this point, saturating to a zero span if
    /// `earlier` is in fact the later of the two.
    pub fn saturating_duration_since(&self, earlier: Instant) -> (d: Duration)
        ensures
            self.spec_nanos() >= earlier.spec_nanos() ==> d.spec_nanos() == self.spec_nanos()
                - earlier.spec_nanos(),
            self.spec_nanos() < earlier.spec_nanos() ==> d.spec_nanos() == 0,
    {
        self.duration_since(earlier)
    }

    /// The point `duration` later, or `None` if that would leave the
    /// representable range.
    pub fn checked_add(&self, duration: Duration) -> (r: Option<Instant>)
        ensures
            self.spec_nanos() + duration.spec_nanos() <= u128::MAX ==> (r matches Some(t)
                && t.spec_nanos() == self.spec_nanos() + duration.spec_nanos()),
            self.spec_nanos() + duration.spec_nanos() > u128::MAX ==> r is None,
    {
        if self.nanos <= u128::MAX - duration.nanos {
            Some(Instant { nanos: self.nanos + duration.nanos })
        } else {
            None
        }
    }

    /// The point `duration` earlier, or `None` if that would lie before the
    /// timeline's origin.
    pub fn checked_sub(&self, duration: Duration) -> (r: Option<Instant>)
        ensures
            self.spec_nanos() >= duration.spec_nanos() ==> (r matches Some(t) && t.spec_nanos()
                == self.spec_nanos() - duration.spec_nanos()),
            self.spec_nanos() < duration.spec_nanos() ==> r is None,
    {
        if self.nanos >= duration.nanos {
            Some(Instant { nanos: self.nanos - duration.nanos })
        } else {
            None
        }
    }

    /// The clock's current virtual timestamp; there is no ambient clock,
    /// so the isolation scope's clock is named explicitly.
    pub fn now(clock: &Clock) -> (t: Instant)
        ensures
            t == clock.spec_now(),
    {
        clock.now()
    }

    /// The span from this point to the clock's current timestamp, or a
    /// zero span if this point lies after it.
    pub fn elapsed(&self, clock: &Clock) -> (d: Duration)
        ensures
            clock.spec_now().spec_nanos() >= self.spec_nanos() ==> d.spec_nanos()
                == clock.spec_now().spec_nanos() - self.spec_nanos(),
            clock.spec_now().spec_nanos() < self.spec_nanos() ==> d.spec_nanos() == 0,
    {
        clock.now().duration_since(*self)
    }

    /// The point `duration` later, saturating at the top of the
    /// representable range.
    pub fn saturating_add(&self, duration: Duration) -> (t: Instant)
        ensures
            t.spec_nanos() == if self.spec_nanos() + duration.spec_nanos() <= u128::MAX {
                self.spec_nanos() + duration.spec_nanos()
            } else {
                u128::MAX as int
            },
    {
        if self.nanos <= u128::MAX - duration.nanos {
            Instant { nanos: self.nanos + duration.nanos }
        } else {
            Instant { nanos: u128::MAX }
        }
    }
}

} // verus!
