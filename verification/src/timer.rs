//! A countdown timer measured in whole milliseconds, advanced by each
//! frame's measured delta rather than a fixed tick count.

use vstd::prelude::*;

verus! {

/// A countdown timer. `elapsed_ms` never exceeds `duration_ms`; the timer is
/// finished exactly when the two are equal; a paused timer ignores frame
/// deltas entirely.
#[derive(Clone, Copy, Debug, PartialEq, Eq, Structural)]
pub struct ActionTimer {
    pub duration_ms: u64,
    pub elapsed_ms: u64,
    pub paused: bool,
}

impl ActionTimer {
    /// Elapsed time never exceeds the duration.
    pub open spec fn wf(self) -> bool {
        self.elapsed_ms <= self.duration_ms
    }

    /// Finished means the whole duration has elapsed.
    pub open spec fn spec_finished(self) -> bool {
        self.elapsed_ms >= self.duration_ms
    }

    /// The timer after one frame of `delta_ms` milliseconds: a paused timer
    /// is unchanged; otherwise the elapsed time advances, saturating at the
    /// duration.
    pub open spec fn spec_ticked(self, delta_ms: u64) -> ActionTimer {
        if self.paused {
            self
        } else if self.elapsed_ms + delta_ms >= self.duration_ms {
            ActionTimer { duration_ms: self.duration_ms, elapsed_ms: self.duration_ms, paused: false }
        } else {
            ActionTimer {
                duration_ms: self.duration_ms,
                elapsed_ms: (self.elapsed_ms + delta_ms) as u64,
                paused: false,
            }
        }
    }

    /// Whether a tick of `delta_ms` moves the timer from not-finished to
    /// finished in this exact frame.
    pub open spec fn spec_just_finishes(self, delta_ms: u64) -> bool {
        !self.spec_finished() && self.spec_ticked(delta_ms).spec_finished()
    }

    /// A fresh running timer.
    pub fn new(duration_ms: u64) -> (r: ActionTimer)
        ensures
            r == (ActionTimer { duration_ms, elapsed_ms: 0, paused: false }),
    {
        ActionTimer { duration_ms, elapsed_ms: 0, paused: false }
    }

    /// A fresh timer that starts paused.
    pub fn new_paused(duration_ms: u64) -> (r: ActionTimer)
        ensures
            r == (ActionTimer { duration_ms, elapsed_ms: 0, paused: true }),
    {
        ActionTimer { duration_ms, elapsed_ms: 0, paused: true }
    }

    pub fn finished(&self) -> (r: bool)
        ensures
            r == self.spec_finished(),
    {
        self.elapsed_ms >= self.duration_ms
    }

    pub fn unpause(&mut self)
        ensures
            *final(self) == (ActionTimer {
                duration_ms: old(self).duration_ms,
                elapsed_ms: old(self).elapsed_ms,
                paused: false,
            }),
    {
        self.paused = false;
    }

    /// Advance by one frame delta; report whether the timer finished on this
    /// very tick.
    pub fn tick(&mut self, delta_ms: u64) -> (just_finished: bool)
        requires
            old(self).wf(),
        ensures
            *final(self) == old(self).spec_ticked(delta_ms),
            final(self).wf(),
            just_finished == old(self).spec_just_finishes(delta_ms),
    {
        if self.paused {
            false
        } else {
            let was_finished = self.elapsed_ms >= self.duration_ms;
            if delta_ms >= self.duration_ms - self.elapsed_ms {
                self.elapsed_ms = self.duration_ms;
                !was_finished
            } else {
                self.elapsed_ms = self.elapsed_ms + delta_ms;
                false
            }
        }
    }
}

} // verus!
