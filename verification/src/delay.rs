//! The suspend-until-deadline primitive built on the virtual clock.
//!
//! A [`Delay`] is nothing but an immutable deadline, fixed at construction
//! (given directly, or resolved against the clock's `now` at construction
//! time, not at poll time). Its step is a plain comparison: suspended while
//! `now` is before the deadline, completed once `now` has reached it, the
//! boundary included. Nothing registers for resumption; after advancing
//! the clock the test steps the delay again.

use vstd::prelude::*;

use crate::clock::Clock;
use crate::instant::{Duration, Instant};
use crate::step::Step;

verus! {

/// A delay with an immutable deadline on the virtual timeline.
#[derive(Debug)]
pub struct Delay {
    deadline: Instant,
}

/// What one step of a delay reports against a given clock: completed once
/// the clock has reached the deadline (boundary inclusive), suspended
/// before that.
pub open spec fn delay_outcome(delay: Delay, clock: Clock) -> Step<()> {
    if clock.spec_now().spec_nanos() >= delay.spec_deadline().spec_nanos() {
        Step::Completed(())
    } else {
        Step::Suspended
    }
}

impl Delay {
    /// The deadline this delay waits for.
    pub closed spec fn spec_deadline(&self) -> Instant {
        self.deadline
    }

    fn new_deadline(deadline: Instant) -> (d: Delay)
        ensures
            d.spec_deadline() == deadline,
    {
        Delay { deadline }
    }

    fn new_delay(clock: &Clock, delay: Duration) -> (d: Delay)
        ensures
            d.spec_deadline().spec_nanos() == if clock.spec_now().spec_nanos()
                + delay.spec_nanos() <= u128::MAX {
                clock.spec_now().spec_nanos() + delay.spec_nanos()
            } else {
                u128::MAX as int
            },
    {
        Delay { deadline: clock.now().saturating_add(delay) }
    }

    /// The deadline this delay waits for.
    pub fn deadline(&self) -> (t: Instant)
        ensures
            t == self.spec_deadline(),
    {
        self.deadline
    }

    /// Whether the clock has reached the deadline, boundary inclusive.
    pub fn is_elapsed(&self, clock: &Clock) -> (r: bool)
        ensures
            r == (clock.spec_now().spec_nanos() >= self.spec_deadline().spec_nanos()),
    {
        clock.now().as_nanos() >= self.deadline.as_nanos()
    }

    /// One step of the delay: completed once the clock has reached the
    /// deadline (boundary inclusive), suspended before that. The clock is
    /// only read; stepping never moves it.
    pub fn poll(&self, clock: &Clock) -> (r: Step<()>)
        ensures
            r == delay_outcome(*self, *clock),
    {
        if self.is_elapsed(clock) {
            Step::Completed(())
        } else {
            Step::Suspended
        }
    }
}

/// A delay that completes once the clock reaches `deadline`.
pub fn sleep_until(deadline: Instant) -> (d: Delay)
    ensures
        d.spec_deadline() == deadline,
{
    Delay::new_deadline(deadline)
}

/// A delay of `delay` from the clock's current time, the deadline resolved
/// now, at construction, not at the first step (saturating at the top of
/// the range).
pub fn sleep(clock: &Clock, delay: Duration) -> (d: Delay)
    ensures
        d.spec_deadline().spec_nanos() == if clock.spec_now().spec_nanos() + delay.spec_nanos()
            <= u128::MAX {
            clock.spec_now().spec_nanos() + delay.spec_nanos()
        } else {
            u128::MAX as int
        },
{
    Delay::new_delay(clock, delay)
}

/// Law: the boundary is inclusive. For a delay made by `sleep` at clock
/// time `start` for span `dur` (the sum in range), a step taken when less
/// than `dur` has elapsed is suspended, and a step taken when exactly `dur`
/// or more has elapsed is completed.
pub proof fn lemma_sleep_boundary(start: Clock, later: Clock, dur: Duration, delay: Delay)
    requires
        start.spec_now().spec_nanos() + dur.spec_nanos() <= u128::MAX,
        delay.spec_deadline().spec_nanos() == start.spec_now().spec_nanos() + dur.spec_nanos(),
    ensures
        later.spec_now().spec_nanos() < start.spec_now().spec_nanos() + dur.spec_nanos()
            ==> delay_outcome(delay, later) == Step::<()>::Suspended,
        later.spec_now().spec_nanos() >= start.spec_now().spec_nanos() + dur.spec_nanos()
            ==> delay_outcome(delay, later) == Step::Completed(()),
{
}

} // verus!
