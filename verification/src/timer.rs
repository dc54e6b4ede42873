//! The one-shot zoom animation timer: a three-phase state machine that
//! is started by a trigger, accumulates frame deltas while running, and
//! settles for good once the configured duration is reached.

use vstd::prelude::*;

use crate::units::{DEFAULT_DURATION_MICROS, MAX_DURATION_MICROS};

verus! {

/// Phase of the one-shot zoom animation.
#[derive(Clone, Copy, Debug, PartialEq, Eq, Structural)]
pub enum ZoomPhase {
    /// Paused at zero elapsed time: nothing has started the animation yet.
    Idle,
    /// Running: elapsed time is strictly below the duration.
    Animating,
    /// Paused at the duration: the one-shot animation has finished for good.
    Settled,
}

/// The animation timer. Created paused at zero, started once by a
/// trigger, advanced by per-frame ticks, and settled permanently when
/// the elapsed time reaches the duration.
#[derive(Clone, Copy, Debug, PartialEq, Eq, Structural)]
pub struct ZoomTimer {
    /// Accumulated animation time, clamped at `duration_micros`.
    pub elapsed_micros: u64,
    /// Whether a tick advances the elapsed time.
    pub running: bool,
    /// Configured length of the one-shot animation.
    pub duration_micros: u64,
}

impl ZoomTimer {
    /// The timer's invariant: the duration is positive and bounded, the
    /// elapsed time never passes it, a running timer has not reached it,
    /// and a paused timer sits either at zero or at the duration.
    pub open spec fn wf(self) -> bool {
        &&& 1 <= self.duration_micros <= MAX_DURATION_MICROS
        &&& self.elapsed_micros <= self.duration_micros
        &&& (self.running ==> self.elapsed_micros < self.duration_micros)
        &&& (!self.running ==> self.elapsed_micros == 0 || self.elapsed_micros
            == self.duration_micros)
    }

    /// The phase the timer is in.
    pub open spec fn phase(self) -> ZoomPhase
        recommends
            self.wf(),
    {
        if self.running {
            ZoomPhase::Animating
        } else if self.elapsed_micros == 0 {
            ZoomPhase::Idle
        } else {
            ZoomPhase::Settled
        }
    }

    /// The timer after a start trigger: it leaves `Idle` for
    /// `Animating`; in any other phase the trigger changes nothing.
    pub open spec fn triggered(self) -> ZoomTimer
        recommends
            self.wf(),
    {
        if self.phase() == ZoomPhase::Idle {
            ZoomTimer { running: true, ..self }
        } else {
            self
        }
    }

    /// The timer after one frame's tick: while `Animating` the elapsed
    /// time grows by the delta, clamped at the duration, where the timer
    /// settles; in any other phase a tick changes nothing.
    pub open spec fn ticked(self, delta_micros: u64) -> ZoomTimer
        recommends
            self.wf(),
    {
        if self.phase() == ZoomPhase::Animating {
            if delta_micros < self.duration_micros - self.elapsed_micros {
                ZoomTimer {
                    elapsed_micros: (self.elapsed_micros + delta_micros) as u64,
                    ..self
                }
            } else {
                ZoomTimer { elapsed_micros: self.duration_micros, running: false, ..self }
            }
        } else {
            self
        }
    }

    /// A fresh timer with the given duration: paused at zero, in `Idle`.
    pub fn new(duration_micros: u64) -> (t: ZoomTimer)
        requires
            1 <= duration_micros <= MAX_DURATION_MICROS,
        ensures
            t.wf(),
            t.phase() == ZoomPhase::Idle,
            t.elapsed_micros == 0,
            t.duration_micros == duration_micros,
    {
        ZoomTimer { elapsed_micros: 0, running: false, duration_micros }
    }

    /// The current phase, as a value the frame loop can branch on.
    pub fn current_phase(&self) -> (p: ZoomPhase)
        ensures
            p == self.phase(),
    {
        if self.running {
            ZoomPhase::Animating
        } else if self.elapsed_micros == 0 {
            ZoomPhase::Idle
        } else {
            ZoomPhase::Settled
        }
    }

    /// Delivers the start trigger. Only an `Idle` timer reacts, by
    /// starting to run; while `Animating` or `Settled` the timer,
    /// elapsed time included, stays exactly as it was.
    pub fn trigger(&mut self)
        requires
            old(self).wf(),
        ensures
            final(self).wf(),
            *final(self) == old(self).triggered(),
            final(self).elapsed_micros == old(self).elapsed_micros,
            final(self).duration_micros == old(self).duration_micros,
            old(self).phase() == ZoomPhase::Idle ==> final(self).phase() == ZoomPhase::Animating,
            old(self).phase() != ZoomPhase::Idle ==> *final(self) == *old(self),
    {
        if !self.running && self.elapsed_micros == 0 {
            self.running = true;
        }
    }

    /// Advances the timer by one frame's delta. While `Animating` the
    /// elapsed time becomes `min(elapsed + delta, duration)` and the
    /// timer settles on reaching the duration; in any other phase the
    /// tick changes nothing. The elapsed time never decreases.
    pub fn tick(&mut self, delta_micros: u64)
        requires
            old(self).wf(),
        ensures
            final(self).wf(),
            *final(self) == old(self).ticked(delta_micros),
            final(self).duration_micros == old(self).duration_micros,
            final(self).elapsed_micros >= old(self).elapsed_micros,
            old(self).phase() == ZoomPhase::Animating ==> final(self).elapsed_micros
                == vstd::math::min(
                old(self).elapsed_micros + delta_micros,
                old(self).duration_micros as int,
            ),
            old(self).phase() != ZoomPhase::Animating ==> *final(self) == *old(self),
    {
        if self.running {
            let headroom = self.duration_micros - self.elapsed_micros;
            if delta_micros < headroom {
                self.elapsed_micros = self.elapsed_micros + delta_micros;
            } else {
                self.elapsed_micros = self.duration_micros;
                self.running = false;
            }
        }
    }
}

impl Default for ZoomTimer {
    /// A fresh timer with the default ten-second duration: paused at
    /// zero, in `Idle`.
    fn default() -> (t: ZoomTimer)
        ensures
            t.wf(),
            t.phase() == ZoomPhase::Idle,
            t.elapsed_micros == 0,
            t.duration_micros == DEFAULT_DURATION_MICROS,
    {
        ZoomTimer::new(DEFAULT_DURATION_MICROS)
    }
}

/// Trigger idempotence: while `Animating` or `Settled` the start trigger
/// leaves the timer exactly as it was, and a second trigger never does
/// more than the first.
pub proof fn lemma_trigger_idempotent(t: ZoomTimer)
    requires
        t.wf(),
    ensures
        t.phase() != ZoomPhase::Idle ==> t.triggered() == t,
        t.triggered().triggered() == t.triggered(),
{
}

/// Total of a sequence of frame deltas, as a mathematical integer.
pub open spec fn sum_of(deltas: Seq<u64>) -> int
    decreases deltas.len(),
{
    if deltas.len() == 0 {
        0
    } else {
        deltas[0] + sum_of(deltas.drop_first())
    }
}

/// A total of unsigned deltas is never negative.
pub proof fn lemma_sum_of_nonneg(deltas: Seq<u64>)
    ensures
        sum_of(deltas) >= 0,
    decreases deltas.len(),
{
    if deltas.len() > 0 {
        lemma_sum_of_nonneg(deltas.drop_first());
    }
}

/// The timer after a whole sequence of ticks, first delta first.
pub open spec fn ticked_all(t: ZoomTimer, deltas: Seq<u64>) -> ZoomTimer
    decreases deltas.len(),
{
    if deltas.len() == 0 {
        t
    } else {
        ticked_all(t.ticked(deltas[0]), deltas.drop_first())
    }
}

/// Timer monotonicity: ticking never decreases the elapsed time; from
/// `Animating`, any sequence of deltas leaves the elapsed time at
/// exactly the accumulated total, clamped at the duration; and outside
/// `Animating` ticks change nothing at all.
pub proof fn lemma_tick_sequence(t: ZoomTimer, deltas: Seq<u64>)
    requires
        t.wf(),
    ensures
        ticked_all(t, deltas).wf(),
        ticked_all(t, deltas).duration_micros == t.duration_micros,
        ticked_all(t, deltas).elapsed_micros >= t.elapsed_micros,
        t.phase() == ZoomPhase::Animating ==> ticked_all(t, deltas).elapsed_micros
            == vstd::math::min(t.elapsed_micros + sum_of(deltas), t.duration_micros as int),
        t.phase() != ZoomPhase::Animating ==> ticked_all(t, deltas) == t,
    decreases deltas.len(),
{
    if deltas.len() > 0 {
        lemma_sum_of_nonneg(deltas.drop_first());
        lemma_tick_sequence(t.ticked(deltas[0]), deltas.drop_first());
    }
}

} // verus!
