//! A monotonic countdown timer, the primitive every timed behaviour of the
//! simulation is built on: attack cooldowns, slide duration, attack windup
//! and hitbox lifetimes.
//!
//! A timer is constructed with a duration in milliseconds and a mode.
//! `tick` advances elapsed time monotonically, saturating at the duration in
//! once-mode and wrapping in repeat-mode.  `finished` reports that the
//! elapsed time has reached the duration; `just_finished` reports that this
//! happened on the current tick and had not happened before it.  A
//! zero-duration once-mode timer is finished immediately.

use vstd::prelude::*;

verus! {

/// Largest duration a timer accepts, in milliseconds.
pub const DURATION_MAX_MS: u64 = 1_000_000_000_000;

/// Largest single advance a timer accepts, in milliseconds.
pub const TICK_MAX_MS: u64 = 1_000_000_000_000;

#[derive(Clone, Copy, PartialEq, Eq, Structural, Debug)]
pub enum TimerMode {
    Once,
    Repeat,
}

#[derive(Clone, Copy, PartialEq, Eq, Structural, Debug)]
pub struct Timer {
    /// Total countdown time, in milliseconds.
    pub duration: u64,
    /// Time accumulated so far, in milliseconds; never exceeds `duration`.
    pub elapsed: u64,
    /// True exactly when the last `tick` newly reached the duration.
    pub just_finished: bool,
    pub mode: TimerMode,
}

impl Timer {
    pub open spec fn wf(self) -> bool {
        &&& self.duration <= DURATION_MAX_MS
        &&& self.elapsed <= self.duration
    }

    /// A timer has finished when its elapsed time has reached its duration;
    /// a repeating timer reports the wraps of its most recent tick.
    pub open spec fn spec_finished(self) -> bool {
        match self.mode {
            TimerMode::Once => self.elapsed >= self.duration,
            TimerMode::Repeat => self.just_finished,
        }
    }

    /// The timer as it stands after one `tick` of `delta` milliseconds.
    pub open spec fn ticked(self, delta: u64) -> Timer {
        match self.mode {
            TimerMode::Once => {
                let total = self.elapsed + delta;
                let e2: u64 = if total <= self.duration {
                    total as u64
                } else {
                    self.duration
                };
                Timer {
                    elapsed: e2,
                    just_finished: e2 >= self.duration && !(self.elapsed >= self.duration),
                    ..self
                }
            },
            TimerMode::Repeat => {
                if self.duration == 0 {
                    Timer { elapsed: 0, just_finished: true, ..self }
                } else {
                    let total = self.elapsed + delta;
                    Timer {
                        elapsed: (total % (self.duration as int)) as u64,
                        just_finished: total >= self.duration,
                        ..self
                    }
                }
            },
        }
    }

    /// The fraction of the duration already elapsed, at scale 1000; an
    /// exhausted or zero-duration timer reports 1000.  This is the windup
    /// interpolation parameter `t = 1 - percent_left`.
    pub open spec fn spec_fraction_elapsed_permille(self) -> int {
        if self.duration == 0 {
            1000
        } else {
            (self.elapsed * 1000) / (self.duration as int)
        }
    }

    pub fn new(duration_ms: u64, mode: TimerMode) -> (t: Timer)
        requires
            duration_ms <= DURATION_MAX_MS,
        ensures
            t == (Timer { duration: duration_ms, elapsed: 0, just_finished: false, mode }),
            t.wf(),
    {
        Timer { duration: duration_ms, elapsed: 0, just_finished: false, mode }
    }

    pub fn tick(&mut self, delta: u64)
        requires
            old(self).wf(),
            delta <= TICK_MAX_MS,
        ensures
            *final(self) == old(self).ticked(delta),
            final(self).wf(),
    {
        match self.mode {
            TimerMode::Once => {
                let was = self.elapsed >= self.duration;
                let total = self.elapsed + delta;
                let e2 = if total <= self.duration {
                    total
                } else {
                    self.duration
                };
                self.elapsed = e2;
                self.just_finished = e2 >= self.duration && !was;
            },
            TimerMode::Repeat => {
                if self.duration == 0 {
                    self.elapsed = 0;
                    self.just_finished = true;
                } else {
                    let total = self.elapsed + delta;
                    self.just_finished = total >= self.duration;
                    self.elapsed = total % self.duration;
                }
            },
        }
    }

    pub fn finished(&self) -> (b: bool)
        ensures
            b == self.spec_finished(),
    {
        match self.mode {
            TimerMode::Once => self.elapsed >= self.duration,
            TimerMode::Repeat => self.just_finished,
        }
    }

    pub fn is_just_finished(&self) -> (b: bool)
        ensures
            b == self.just_finished,
    {
        self.just_finished
    }

    pub fn elapsed_ms(&self) -> (e: u64)
        ensures
            e == self.elapsed,
    {
        self.elapsed
    }

    /// Restart the countdown from zero, keeping duration and mode.
    pub fn reset(&mut self)
        ensures
            *final(self) == (Timer { elapsed: 0, just_finished: false, ..*old(self) }),
            old(self).wf() ==> final(self).wf(),
    {
        self.elapsed = 0;
        self.just_finished = false;
    }

    pub fn set_duration(&mut self, duration_ms: u64)
        requires
            duration_ms <= DURATION_MAX_MS,
            old(self).elapsed <= duration_ms,
        ensures
            *final(self) == (Timer { duration: duration_ms, ..*old(self) }),
            final(self).wf(),
    {
        self.duration = duration_ms;
    }

    pub fn fraction_elapsed_permille(&self) -> (t: u64)
        requires
            self.wf(),
        ensures
            t == self.spec_fraction_elapsed_permille(),
            t <= 1000,
    {
        if self.duration == 0 {
            1000
        } else {
            proof {
                assert(self.elapsed * 1000 <= self.duration * 1000) by (nonlinear_arith)
                    requires
                        self.elapsed <= self.duration,
                ;
                assert((self.elapsed * 1000) as int / (self.duration as int) <= 1000)
                    by (nonlinear_arith)
                    requires
                        self.duration > 0 && self.elapsed * 1000 <= self.duration * 1000,
                ;
            }
            (self.elapsed * 1000) / self.duration
        }
    }
}

/// The timer after a whole sequence of ticks.
pub open spec fn ticked_all(t: Timer, deltas: Seq<u64>) -> Timer
    decreases deltas.len(),
{
    if deltas.len() == 0 {
        t
    } else {
        ticked_all(t.ticked(deltas.first()), deltas.drop_first())
    }
}

pub open spec fn sum_of(deltas: Seq<u64>) -> int
    decreases deltas.len(),
{
    if deltas.len() == 0 {
        0
    } else {
        deltas.first() + sum_of(deltas.drop_first())
    }
}

/// A once-mode timer does not report finished before its full duration has
/// elapsed, however the elapsed time is split across ticks.  This is what
/// makes a freshly restarted cooldown reject a re-trigger until its
/// configured time has truly passed.
pub proof fn lemma_once_timer_needs_full_duration(t: Timer, deltas: Seq<u64>)
    requires
        t.mode == TimerMode::Once,
        t.wf(),
        t.elapsed + sum_of(deltas) < t.duration,
        forall|i: int| 0 <= i < deltas.len() ==> deltas[i] <= TICK_MAX_MS,
    ensures
        !ticked_all(t, deltas).spec_finished(),
        ticked_all(t, deltas).elapsed == t.elapsed + sum_of(deltas),
        ticked_all(t, deltas).duration == t.duration,
    decreases deltas.len(),
{
    lemma_sum_of_nonneg(deltas);
    if deltas.len() > 0 {
        let t2 = t.ticked(deltas.first());
        lemma_sum_of_nonneg(deltas.drop_first());
        assert(forall|i: int|
            0 <= i < deltas.drop_first().len() ==> deltas.drop_first()[i] <= TICK_MAX_MS);
        lemma_once_timer_needs_full_duration(t2, deltas.drop_first());
    }
}

pub proof fn lemma_sum_of_nonneg(deltas: Seq<u64>)
    ensures
        sum_of(deltas) >= 0,
    decreases deltas.len(),
{
    if deltas.len() > 0 {
        lemma_sum_of_nonneg(deltas.drop_first());
    }
}

} // verus!
