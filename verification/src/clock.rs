//! The virtual clock: one mutable timestamp per isolation scope.
//!
//! A [`Clock`] never moves on its own and never moves backward; the only
//! way time passes is an explicit [`Clock::advance`] by the test. Each
//! clock value is its own isolation scope: tests that must not share time
//! simply construct separate clocks.

use vstd::prelude::*;

use crate::instant::{Duration, Instant};

verus! {

/// The virtual clock. Construction fixes the starting timestamp; only
/// `advance` ever changes it.
pub struct Clock {
    now: Instant,
}

impl Clock {
    /// The current virtual timestamp.
    pub closed spec fn spec_now(&self) -> Instant {
        self.now
    }

    /// A clock starting at `start`.
    pub fn new(start: Instant) -> (c: Clock)
        ensures
            c.spec_now() == start,
    {
        Clock { now: start }
    }

    /// The current virtual timestamp. Reading never moves the clock.
    pub fn now(&self) -> (t: Instant)
        ensures
            t == self.spec_now(),
    {
        self.now
    }

    /// Move the clock forward by `duration`, saturating at the top of the
    /// representable range; the clock never wraps and never moves backward.
    pub fn advance(&mut self, duration: Duration)
        ensures
            final(self).spec_now().spec_nanos() == if old(self).spec_now().spec_nanos()
                + duration.spec_nanos() <= u128::MAX {
                old(self).spec_now().spec_nanos() + duration.spec_nanos()
            } else {
                u128::MAX as int
            },
            final(self).spec_now().spec_nanos() >= old(self).spec_now().spec_nanos(),
    {
        self.now = self.now.saturating_add(duration);
    }
}

/// Move `clock` forward by `duration`: the test-only command that makes
/// virtual time pass.
pub fn advance(clock: &mut Clock, duration: Duration)
    ensures
        final(clock).spec_now().spec_nanos() == if old(clock).spec_now().spec_nanos()
            + duration.spec_nanos() <= u128::MAX {
            old(clock).spec_now().spec_nanos() + duration.spec_nanos()
        } else {
            u128::MAX as int
        },
        final(clock).spec_now().spec_nanos() >= old(clock).spec_now().spec_nanos(),
{
    clock.advance(duration);
}

} // verus!
