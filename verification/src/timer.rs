//! Countdown timers.
//!
//! Every ticking entity in the simulation carries one of these: a countdown
//! with a duration, an elapsed time, and a repeating flag. `tick` advances
//! the elapsed time; `finished` reports whether the countdown ran out on the
//! most recent tick (repeating timers wrap around and report it again each
//! time they run out; one-shot timers clamp and stay finished).

use vstd::prelude::*;

verus! {

/// Upper bound on a timer duration, in milliseconds (about 49 days).
pub const DURATION_MAX_MS: u64 = 0x1_0000_0000;

/// Upper bound on a single simulation step, in milliseconds.
pub const TICK_MAX_MS: u64 = 0x1_0000_0000;

/// A countdown with `duration_ms` total, `elapsed_ms` spent, and a repeating
/// flag. `fired` records whether the countdown ran out on the last `tick`.
#[derive(Clone, Copy, PartialEq, Eq, Structural, Debug)]
pub struct Timer {
    pub duration_ms: u64,
    pub elapsed_ms: u64,
    pub repeating: bool,
    pub fired: bool,
}

impl Timer {
    /// Well-formedness: both fields are bounded (shrinking a live timer's
    /// duration may leave elapsed above it; the next tick then fires), and a
    /// repeating timer has a positive period to wrap by.
    pub open spec fn wf(self) -> bool {
        &&& self.elapsed_ms <= DURATION_MAX_MS
        &&& self.duration_ms <= DURATION_MAX_MS
        &&& self.repeating ==> self.duration_ms >= 1
    }

    /// The timer value after advancing by `dt` milliseconds: the countdown
    /// fires when the accumulated time reaches the duration; a repeating
    /// timer then wraps the overshoot, a one-shot timer clamps.
    pub open spec fn spec_tick(self, dt: u64) -> Timer {
        let total = self.elapsed_ms + dt;
        if total >= self.duration_ms {
            if self.repeating {
                Timer {
                    elapsed_ms: (total % (self.duration_ms as int)) as u64,
                    fired: true,
                    ..self
                }
            } else {
                Timer { elapsed_ms: self.duration_ms, fired: true, ..self }
            }
        } else {
            Timer { elapsed_ms: total as u64, fired: false, ..self }
        }
    }

    /// A fresh countdown: nothing elapsed, not yet fired.
    pub fn new(duration_ms: u64, repeating: bool) -> (t: Timer)
        requires
            duration_ms <= DURATION_MAX_MS,
            repeating ==> duration_ms >= 1,
        ensures
            t == (Timer { duration_ms, elapsed_ms: 0, repeating, fired: false }),
            t.wf(),
    {
        Timer { duration_ms, elapsed_ms: 0, repeating, fired: false }
    }

    /// Advance the countdown by `dt` milliseconds.
    pub fn tick(&mut self, dt: u64)
        requires
            old(self).wf(),
            dt <= TICK_MAX_MS,
        ensures
            *final(self) == old(self).spec_tick(dt),
            final(self).wf(),
    {
        let total: u64 = self.elapsed_ms + dt;
        if total >= self.duration_ms {
            self.fired = true;
            if self.repeating {
                self.elapsed_ms = total % self.duration_ms;
            } else {
                self.elapsed_ms = self.duration_ms;
            }
        } else {
            self.fired = false;
            self.elapsed_ms = total;
        }
    }

    /// Whether the countdown ran out on the most recent tick (and, for a
    /// one-shot timer, on any tick since).
    pub fn finished(&self) -> (r: bool)
        ensures
            r == self.fired,
    {
        self.fired
    }

    /// Start the countdown over.
    pub fn reset(&mut self)
        ensures
            *final(self) == (Timer { elapsed_ms: 0, fired: false, ..*old(self) }),
    {
        self.elapsed_ms = 0;
        self.fired = false;
    }

    /// Mark the whole countdown as already spent, so that the next tick
    /// reports it finished. Used to consume the dash rearm window.
    pub fn exhaust(&mut self)
        ensures
            *final(self) == (Timer { elapsed_ms: old(self).duration_ms, ..*old(self) }),
    {
        self.elapsed_ms = self.duration_ms;
    }
}

} // verus!
