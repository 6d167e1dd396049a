//! Countdown timers driven by per-tick elapsed time, in milliseconds.
//!
//! A repeating timer finishes each time the accumulated time crosses its
//! duration and then keeps the remainder; a once timer finishes a single
//! time and then stays at its duration.
use vstd::prelude::*;

verus! {

/// Largest duration a well-formed timer can have, in milliseconds.
pub const DURATION_MAX: u64 = 1_000_000_000;

/// Largest per-tick elapsed time the simulation accepts, in milliseconds.
pub const DELTA_MAX: u64 = 10_000;

/// Whether a timer fires over and over or a single time.
#[derive(Clone, Copy, Debug, PartialEq, Eq, Structural)]
pub enum TimerMode {
    Once,
    Repeating,
}

/// A countdown over elapsed milliseconds.
#[derive(Clone, Copy, Debug, PartialEq, Eq, Structural)]
pub struct Timer {
    /// Time accumulated toward the next expiry, in milliseconds.
    pub elapsed_ms: u64,
    /// Time between expiries, in milliseconds.
    pub duration_ms: u64,
    pub mode: TimerMode,
    /// Whether the most recent [`Timer::tick`] crossed the duration.
    pub just_finished: bool,
}

impl Timer {
    /// A well-formed timer: positive bounded duration, accumulated time
    /// within it.
    pub open spec fn wf(self) -> bool {
        &&& 1 <= self.duration_ms <= DURATION_MAX
        &&& self.elapsed_ms <= self.duration_ms
        &&& (self.mode is Repeating ==> self.elapsed_ms < self.duration_ms)
    }

    /// The timer after one tick of `delta_ms`.
    pub open spec fn spec_tick(self, delta_ms: u64) -> Timer {
        let total = self.elapsed_ms + delta_ms;
        match self.mode {
            TimerMode::Repeating => Timer {
                elapsed_ms: (total % (self.duration_ms as int)) as u64,
                just_finished: total >= self.duration_ms,
                ..self
            },
            TimerMode::Once => Timer {
                elapsed_ms: if total <= self.duration_ms {
                    total as u64
                } else {
                    self.duration_ms
                },
                just_finished: self.elapsed_ms < self.duration_ms && total >= self.duration_ms,
                ..self
            },
        }
    }

    /// A fresh timer with nothing accumulated.
    pub fn from_millis(duration_ms: u64, mode: TimerMode) -> (t: Timer)
        requires
            1 <= duration_ms <= DURATION_MAX,
        ensures
            t == (Timer { elapsed_ms: 0, duration_ms, mode, just_finished: false }),
            t.wf(),
    {
        Timer { elapsed_ms: 0, duration_ms, mode, just_finished: false }
    }

    /// Advance the timer by one tick of `delta_ms`. A repeating timer
    /// finishes exactly when the accumulated time reaches its duration and
    /// keeps the remainder; a once timer finishes the first time the
    /// accumulated time reaches its duration and then never again.
    pub fn tick(&mut self, delta_ms: u64)
        requires
            old(self).wf(),
            delta_ms <= DELTA_MAX,
        ensures
            *final(self) == old(self).spec_tick(delta_ms),
            final(self).wf(),
    {
        let total: u64 = self.elapsed_ms + delta_ms;
        match self.mode {
            TimerMode::Repeating => {
                if total >= self.duration_ms {
                    self.just_finished = true;
                    self.elapsed_ms = total % self.duration_ms;
                    proof {
                        vstd::arithmetic::div_mod::lemma_mod_bound(
                            total as int,
                            self.duration_ms as int,
                        );
                    }
                } else {
                    self.just_finished = false;
                    self.elapsed_ms = total;
                    proof {
                        vstd::arithmetic::div_mod::lemma_small_mod(
                            total as nat,
                            self.duration_ms as nat,
                        );
                    }
                }
            },
            TimerMode::Once => {
                self.just_finished = self.elapsed_ms < self.duration_ms
                    && total >= self.duration_ms;
                self.elapsed_ms = if total <= self.duration_ms {
                    total
                } else {
                    self.duration_ms
                };
            },
        }
    }
}

} // verus!
