//! A repeating countdown used for spawn cadence.

use vstd::prelude::*;

verus! {

/// A repeating timer over milliseconds: `tick` accumulates elapsed time and
/// reports one firing whenever the accumulator has passed the period. The
/// excess beyond one period is retained, so it carries into the next
/// accumulation; a single tick never reports more than one firing.
#[derive(Clone, Copy, PartialEq, Eq, Structural, Debug)]
pub struct Timer {
    pub elapsed_ms: u64,
    pub period_ms: u64,
    pub fired: bool,
}

impl Timer {
    /// A timer the simulation accepts: the period is positive.
    pub open spec fn wf(self) -> bool {
        self.period_ms >= 1
    }

    pub open spec fn spec_new(period_ms: u64) -> Timer {
        Timer { elapsed_ms: 0, period_ms, fired: false }
    }

    /// A fresh timer: nothing accumulated, not finished.
    pub fn new(period_ms: u64) -> (t: Timer)
        requires
            period_ms >= 1,
        ensures
            t == Timer::spec_new(period_ms),
    {
        Timer { elapsed_ms: 0, period_ms, fired: false }
    }

    /// The accumulator after adding `delta_ms`, saturating at the largest
    /// representable value.
    pub open spec fn accumulated(self, delta_ms: u64) -> int {
        if self.elapsed_ms + delta_ms <= u64::MAX {
            self.elapsed_ms + delta_ms
        } else {
            u64::MAX as int
        }
    }

    /// The timer after one `tick` of `delta_ms` milliseconds.
    pub open spec fn spec_tick(self, delta_ms: u64) -> Timer {
        let acc = self.accumulated(delta_ms);
        if acc >= self.period_ms {
            Timer {
                elapsed_ms: (acc - self.period_ms) as u64,
                period_ms: self.period_ms,
                fired: true,
            }
        } else {
            Timer { elapsed_ms: acc as u64, period_ms: self.period_ms, fired: false }
        }
    }

    /// Advances the timer by `delta_ms`. Fires at most once per call; on a
    /// firing, one period is subtracted and the remainder is kept.
    pub fn tick(&mut self, delta_ms: u64)
        requires
            old(self).wf(),
        ensures
            *final(self) == old(self).spec_tick(delta_ms),
            final(self).wf(),
    {
        let acc: u64 = if delta_ms > u64::MAX - self.elapsed_ms {
            u64::MAX
        } else {
            self.elapsed_ms + delta_ms
        };
        if acc >= self.period_ms {
            self.elapsed_ms = acc - self.period_ms;
            self.fired = true;
        } else {
            self.elapsed_ms = acc;
            self.fired = false;
        }
    }

    /// Whether the timer fired during its most recent `tick`.
    pub fn finished(&self) -> (r: bool)
        ensures
            r == self.fired,
    {
        self.fired
    }
}

/// After a firing whose retained excess is below the period, the next check
/// does not fire until another full period has accumulated: the timer keeps
/// accumulating quietly.
pub proof fn lemma_no_refire_before_full_period(t: Timer, d1: u64, d2: u64)
    requires
        t.wf(),
        t.spec_tick(d1).fired,
        t.spec_tick(d1).elapsed_ms + d2 < t.period_ms,
    ensures
        !t.spec_tick(d1).spec_tick(d2).fired,
        t.spec_tick(d1).spec_tick(d2).elapsed_ms == t.spec_tick(d1).elapsed_ms + d2,
{
}

/// As soon as accumulated elapsed time reaches the period, the very next
/// check reports exactly one firing.
pub proof fn lemma_fires_at_period(t: Timer, d: u64)
    requires
        t.wf(),
        t.elapsed_ms + d >= t.period_ms,
    ensures
        t.spec_tick(d).fired,
{
}

} // verus!
