//! Countdown and cooldown timers measured in whole milliseconds.

use vstd::prelude::*;

verus! {

/// What a timer does once its duration has elapsed.
#[derive(Clone, Copy, Debug, PartialEq, Eq, Structural)]
pub enum TimerMode {
    /// Stops at its duration and stays finished until reset.
    Once,
    /// Wraps around and starts counting again.
    Repeating,
}

/// A timer with a fixed duration and the time elapsed so far.
#[derive(Clone, Copy, Debug, PartialEq, Eq, Structural)]
pub struct Timer {
    pub duration_ms: u64,
    pub elapsed_ms: u64,
    pub mode: TimerMode,
    /// Whether the duration was reached during the latest tick.
    pub just_finished: bool,
}

impl Timer {
    /// A timer never holds more than its duration, and a repeating one
    /// always less.
    pub open spec fn wf(self) -> bool {
        &&& self.duration_ms > 0
        &&& self.elapsed_ms <= self.duration_ms
        &&& self.mode == TimerMode::Repeating ==> self.elapsed_ms < self.duration_ms
    }

    /// A one-shot timer is finished once its whole duration has elapsed; a
    /// repeating one only in the tick in which it wrapped.
    pub open spec fn spec_finished(self) -> bool {
        match self.mode {
            TimerMode::Once => self.elapsed_ms >= self.duration_ms,
            TimerMode::Repeating => self.just_finished,
        }
    }

    /// The timer after `dt_ms` more milliseconds.
    pub open spec fn ticked(self, dt_ms: u64) -> Timer {
        match self.mode {
            TimerMode::Once => if self.elapsed_ms >= self.duration_ms {
                Timer { just_finished: false, ..self }
            } else if dt_ms >= self.duration_ms - self.elapsed_ms {
                Timer { elapsed_ms: self.duration_ms, just_finished: true, ..self }
            } else {
                Timer { elapsed_ms: (self.elapsed_ms + dt_ms) as u64, just_finished: false, ..self }
            },
            TimerMode::Repeating => {
                let total = self.elapsed_ms + dt_ms;
                if total >= self.duration_ms {
                    Timer {
                        elapsed_ms: (total % (self.duration_ms as int)) as u64,
                        just_finished: true,
                        ..self
                    }
                } else {
                    Timer { elapsed_ms: total as u64, just_finished: false, ..self }
                }
            },
        }
    }

    /// A timer of the given duration with nothing elapsed.
    pub fn new(duration_ms: u64, mode: TimerMode) -> (r: Timer)
        requires
            duration_ms > 0,
        ensures
            r == (Timer { duration_ms, elapsed_ms: 0, mode, just_finished: false }),
            r.wf(),
    {
        Timer { duration_ms, elapsed_ms: 0, mode, just_finished: false }
    }

    /// A one-shot timer whose duration has already elapsed.
    pub fn ready(duration_ms: u64) -> (r: Timer)
        requires
            duration_ms > 0,
        ensures
            r == (Timer {
                duration_ms,
                elapsed_ms: duration_ms,
                mode: TimerMode::Once,
                just_finished: false,
            }),
            r.wf(),
            r.spec_finished(),
    {
        Timer { duration_ms, elapsed_ms: duration_ms, mode: TimerMode::Once, just_finished: false }
    }

    pub fn finished(&self) -> (r: bool)
        ensures
            r == self.spec_finished(),
    {
        match self.mode {
            TimerMode::Once => self.elapsed_ms >= self.duration_ms,
            TimerMode::Repeating => self.just_finished,
        }
    }

    /// Advances the timer by `dt_ms` milliseconds.
    pub fn tick(&mut self, dt_ms: u64)
        requires
            old(self).wf(),
        ensures
            *final(self) == old(self).ticked(dt_ms),
            final(self).wf(),
    {
        match self.mode {
            TimerMode::Once => {
                if self.elapsed_ms >= self.duration_ms {
                    self.just_finished = false;
                } else if dt_ms >= self.duration_ms - self.elapsed_ms {
                    self.elapsed_ms = self.duration_ms;
                    self.just_finished = true;
                } else {
                    self.elapsed_ms = self.elapsed_ms + dt_ms;
                    self.just_finished = false;
                }
            },
            TimerMode::Repeating => {
                let total: u128 = self.elapsed_ms as u128 + dt_ms as u128;
                if total >= self.duration_ms as u128 {
                    let wrapped: u128 = total % (self.duration_ms as u128);
                    self.elapsed_ms = wrapped as u64;
                    self.just_finished = true;
                } else {
                    self.elapsed_ms = total as u64;
                    self.just_finished = false;
                }
            },
        }
    }

    /// Starts the timer again from zero.
    pub fn reset(&mut self)
        ensures
            *final(self) == (Timer { elapsed_ms: 0, just_finished: false, ..*old(self) }),
    {
        self.elapsed_ms = 0;
        self.just_finished = false;
    }

    /// Milliseconds left before the duration is reached.
    pub fn remaining_ms(&self) -> (r: u64)
        requires
            self.wf(),
        ensures
            r == self.duration_ms - self.elapsed_ms,
    {
        self.duration_ms - self.elapsed_ms
    }
}

} // verus!
