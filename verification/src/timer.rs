//! The repeating clock that paces the walking animation.
//!
//! Time is counted in whole nanoseconds. The clock itself is the engine's
//! `bevy::time::Timer`; this module keeps the clock's state as plain numbers
//! and states what one tick does to them.

use bevy::time::Timer;
use std::time::Duration;
use vstd::prelude::*;

verus! {

/// The engine counts the periods completed by one tick in a `u32`; a tick that
/// would complete more is outside what the clock accepts.
pub const MAX_LAPS_PER_TICK: u64 = 0xffff_ffff;

/// A repeating clock: it counts up to `period`, reports that it finished, and
/// carries the remainder into the next round.
pub struct TimerModel {
    /// Length of one round, in nanoseconds.
    pub period: nat,
    /// Time counted in the current round, in nanoseconds.
    pub elapsed: nat,
    /// Whether the last tick completed at least one round.
    pub finished: bool,
}

impl TimerModel {
    /// The period is positive and the current round is not yet complete.
    pub open spec fn wf(self) -> bool {
        self.period > 0 && self.elapsed < self.period
    }

    /// A clock of the given period that has not run yet.
    pub open spec fn fresh(period: nat) -> TimerModel {
        TimerModel { period, elapsed: 0, finished: false }
    }

    /// The number of rounds that a tick of `delta` nanoseconds completes.
    pub open spec fn laps(self, delta: nat) -> nat {
        (self.elapsed + delta) / self.period
    }

    /// Whether a tick of `delta` nanoseconds is within what the clock accepts.
    pub open spec fn admits(self, delta: nat) -> bool {
        self.laps(delta) <= MAX_LAPS_PER_TICK
    }

    /// The clock after `delta` more nanoseconds: it has finished exactly when
    /// the time counted reaches the period, and keeps what is left over.
    pub open spec fn ticked(self, delta: nat) -> TimerModel {
        TimerModel {
            period: self.period,
            elapsed: (self.elapsed + delta) % self.period,
            finished: self.elapsed + delta >= self.period,
        }
    }
}

/// A tick keeps a well-formed clock well-formed.
pub proof fn lemma_ticked_wf(timer: TimerModel, delta: nat)
    requires
        timer.wf(),
    ensures
        timer.ticked(delta).wf(),
{
    assert((timer.elapsed + delta) % timer.period < timer.period) by (nonlinear_arith)
        requires
            timer.period > 0,
    ;
}

/// Runs one tick of a repeating `bevy::time::Timer` whose duration is `period`
/// nanoseconds and which has already counted `elapsed` nanoseconds, through
/// `Timer::new`, `Timer::set_elapsed`, `Timer::tick`, `Timer::elapsed` and
/// `Timer::finished`. Returns the time counted after the tick and whether the
/// timer reports itself finished.
///
/// Trusted: the timer adds `delta` to the time counted, is finished exactly
/// when that sum has reached its duration, and then subtracts the duration
/// once for each completed round. The engine divides by the duration and
/// counts the rounds in a `u32`, hence the two preconditions.
#[verifier::external_body]
fn tick_repeating(period: u64, elapsed: u64, delta: u64) -> (r: (u64, bool))
    requires
        period > 0,
        (elapsed + delta) / (period as int) <= MAX_LAPS_PER_TICK,
    ensures
        r.0 == (elapsed + delta) % (period as int),
        r.1 == (elapsed + delta >= period),
{
    let mut timer = Timer::new(Duration::from_nanos(period), true);
    timer.set_elapsed(Duration::from_nanos(elapsed));
    timer.tick(Duration::from_nanos(delta));
    (timer.elapsed().as_nanos() as u64, timer.finished())
}

/// The clock attached to an animated entity.
#[derive(Clone, Copy, Debug, PartialEq, Eq)]
pub struct AnimationTimer {
    period: u64,
    elapsed: u64,
    finished: bool,
}

impl View for AnimationTimer {
    type V = TimerModel;

    closed spec fn view(&self) -> TimerModel {
        TimerModel {
            period: self.period as nat,
            elapsed: self.elapsed as nat,
            finished: self.finished,
        }
    }
}

impl AnimationTimer {
    /// The period is positive and the current round is not yet complete.
    #[verifier::type_invariant]
    spec fn in_round(self) -> bool {
        self.period > 0 && self.elapsed < self.period
    }

    /// A repeating clock with a period of `period` nanoseconds that has not
    /// run yet. A clock cannot repeat a period of no length.
    pub fn repeating(period: u64) -> (timer: Option<AnimationTimer>)
        ensures
            period == 0 <==> timer is None,
            timer matches Some(t) ==> t@ == TimerModel::fresh(period as nat) && t@.wf(),
    {
        if period == 0 {
            None
        } else {
            Some(AnimationTimer { period, elapsed: 0, finished: false })
        }
    }

    /// Length of one round, in nanoseconds. It is never zero.
    pub fn period(&self) -> (period: u64)
        ensures
            period == self@.period,
            self@.wf(),
    {
        proof {
            use_type_invariant(self);
        }
        self.period
    }

    /// Time counted in the current round, in nanoseconds. It is always less
    /// than the period.
    pub fn elapsed(&self) -> (elapsed: u64)
        ensures
            elapsed == self@.elapsed,
            self@.wf(),
    {
        proof {
            use_type_invariant(self);
        }
        self.elapsed
    }

    /// Whether the last tick completed at least one round.
    pub fn finished(&self) -> (finished: bool)
        ensures
            finished == self@.finished,
    {
        self.finished
    }

    /// Whether a tick of `delta` nanoseconds is within what the clock accepts.
    pub fn admits(&self, delta: u64) -> (ok: bool)
        ensures
            ok == self@.admits(delta as nat),
            self@.wf(),
    {
        proof {
            use_type_invariant(self);
        }
        let total: u128 = self.elapsed as u128 + delta as u128;
        total / (self.period as u128) <= MAX_LAPS_PER_TICK as u128
    }

    /// Advances the clock by `delta` nanoseconds.
    pub fn tick(&mut self, delta: u64)
        requires
            old(self)@.admits(delta as nat),
        ensures
            final(self)@ == old(self)@.ticked(delta as nat),
            old(self)@.wf(),
            final(self)@.wf(),
    {
        proof {
            use_type_invariant(&*self);
            lemma_ticked_wf(self@, delta as nat);
        }
        let (elapsed, finished) = tick_repeating(self.period, self.elapsed, delta);
        self.elapsed = elapsed;
        self.finished = finished;
    }
}

} // verus!
