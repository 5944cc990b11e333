//! Countdown timer: the primitive behind every timed state in the crate
//! (jump windows, invincibility frames, weapon charge, clip playback).

use vstd::prelude::*;

verus! {

/// A one-shot countdown over a fixed duration, advanced by a per-tick delta.
/// Elapsed time saturates at the duration; the timer is finished exactly when
/// it has saturated.
#[derive(Clone, Copy, Debug)]
pub struct Timer {
    /// Total running time, in milliseconds.  At least one.
    pub duration_ms: u32,
    /// Time accumulated so far, in milliseconds.  Never exceeds `duration_ms`.
    pub elapsed_ms: u32,
}

impl Timer {
    /// Well-formedness: a positive duration and a capped elapsed time.
    pub open spec fn wf(self) -> bool {
        1 <= self.duration_ms && self.elapsed_ms <= self.duration_ms
    }

    /// A fresh, unstarted timer.
    pub fn new(duration_ms: u32) -> (t: Timer)
        requires
            1 <= duration_ms,
        ensures
            t.wf(),
            t.duration_ms == duration_ms,
            t.elapsed_ms == 0,
    {
        Timer { duration_ms, elapsed_ms: 0 }
    }

    /// Advance by `dt_ms` milliseconds, saturating at the duration.
    pub fn tick(&mut self, dt_ms: u32)
        requires
            old(self).wf(),
        ensures
            final(self).wf(),
            final(self).duration_ms == old(self).duration_ms,
            final(self).elapsed_ms == if old(self).elapsed_ms + dt_ms
                >= old(self).duration_ms { old(self).duration_ms as int } else {
                old(self).elapsed_ms + dt_ms
            },
    {
        if dt_ms >= self.duration_ms - self.elapsed_ms {
            self.elapsed_ms = self.duration_ms;
        } else {
            self.elapsed_ms = self.elapsed_ms + dt_ms;
        }
    }

    /// Whether the full duration has elapsed.
    pub fn finished(&self) -> (r: bool)
        requires
            self.wf(),
        ensures
            r == (self.elapsed_ms == self.duration_ms),
    {
        self.elapsed_ms == self.duration_ms
    }

    /// Restart from zero, keeping the duration.
    pub fn reset(&mut self)
        ensures
            final(self).duration_ms == old(self).duration_ms,
            final(self).elapsed_ms == 0,
    {
        self.elapsed_ms = 0;
    }

    /// Progress as thousandths of the whole duration: `0` when unstarted,
    /// `1000` when finished.
    pub fn percent_milli(&self) -> (r: u32)
        requires
            self.wf(),
        ensures
            r == self.elapsed_ms as int * 1000 / self.duration_ms as int,
            r <= 1000,
    {
        proof {
            let e = self.elapsed_ms as int;
            let d = self.duration_ms as int;
            assert(0 <= e * 1000 / d <= 1000) by (nonlinear_arith)
                requires
                    1 <= d,
                    0 <= e <= d;
        }
        (((self.elapsed_ms as u64) * 1000) / (self.duration_ms as u64)) as u32
    }
}

} // verus!
