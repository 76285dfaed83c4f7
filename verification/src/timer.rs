//! Repeating countdown timers.
//!
//! The arithmetic of a tick is the engine's (`bevy::time::Timer`); the timer
//! here keeps its state as plain numbers so that the rules can read it.

use vstd::prelude::*;

verus! {

/// A repeating timer: it finishes each time `duration` has accumulated and
/// carries the remainder over.
#[derive(Clone, Copy, Debug, PartialEq, Eq, Structural)]
pub struct Timer {
    /// Length of one period, in nanoseconds.
    pub duration: u64,
    /// Time accumulated in the current period, in nanoseconds.
    pub elapsed: u64,
    /// Whether the last tick completed a period.
    pub finished: bool,
    /// Periods completed by the last tick.
    pub times_finished_this_tick: u32,
}

/// State of a repeating timer after a tick: the remainder carried over,
/// whether a period was completed, and how many were.
pub open spec fn ticked(duration: u64, elapsed: u64, delta: u64) -> (int, bool, int) {
    let total = elapsed + delta;
    (total % (duration as int), total >= duration, total / (duration as int))
}

/// Ticks a fresh repeating `bevy::time::Timer` of the given period, set to
/// `elapsed`, by `delta`, and reads it out.
///
/// The contract restates `Timer::tick` for the repeating mode: time adds up,
/// the timer is finished when the sum reaches the period, the number of
/// periods completed is the quotient and the remainder is carried over. The
/// period must not be zero (the engine divides by it) and the quotient must
/// fit the engine's 32-bit counter.
#[verifier::external_body]
fn tick_repeating(duration: u64, elapsed: u64, delta: u64) -> (state: (u64, bool, u32))
    requires
        duration > 0,
        (elapsed + delta) / (duration as int) <= u32::MAX,
    ensures
        (state.0 as int, state.1, state.2 as int) == ticked(duration, elapsed, delta),
{
    let period = std::time::Duration::from_nanos(duration);
    let mut timer = bevy::time::Timer::new(period, bevy::time::TimerMode::Repeating);
    timer.set_elapsed(std::time::Duration::from_nanos(elapsed));
    timer.tick(std::time::Duration::from_nanos(delta));
    (timer.elapsed().as_nanos() as u64, timer.finished(), timer.times_finished_this_tick())
}

impl Timer {
    /// A timer can be ticked when its period is positive and the time
    /// accumulated lies within it.
    pub open spec fn wf(self) -> bool {
        self.duration > 0 && self.elapsed < self.duration
    }

    /// A timer of the given period with nothing accumulated.
    pub open spec fn fresh(duration: u64) -> Timer {
        Timer { duration, elapsed: 0, finished: false, times_finished_this_tick: 0 }
    }

    /// The timer after `delta` more nanoseconds.
    pub open spec fn after(self, delta: u64) -> Timer {
        let state = ticked(self.duration, self.elapsed, delta);
        Timer {
            duration: self.duration,
            elapsed: state.0 as u64,
            finished: state.1,
            times_finished_this_tick: state.2 as u32,
        }
    }

    /// Whether a tick by `delta` stays within the 32-bit count of periods.
    pub open spec fn can_tick(self, delta: u64) -> bool {
        self.wf() && (self.elapsed + delta) / (self.duration as int) <= u32::MAX
    }

    /// Starts a repeating timer of the given period.
    pub fn new(duration: u64) -> (timer: Timer)
        ensures
            timer == Timer::fresh(duration),
    {
        Timer { duration, elapsed: 0, finished: false, times_finished_this_tick: 0 }
    }

    /// Decides [`Timer::can_tick`].
    pub fn accepts(&self, delta: u64) -> (ok: bool)
        ensures
            ok == self.can_tick(delta),
    {
        if self.duration == 0 || self.elapsed >= self.duration {
            return false;
        }
        let total: u128 = self.elapsed as u128 + delta as u128;
        total / (self.duration as u128) <= 0xFFFF_FFFFu128
    }

    /// Advances the timer by `delta` nanoseconds.
    pub fn tick(&mut self, delta: u64)
        requires
            old(self).can_tick(delta),
        ensures
            *final(self) == old(self).after(delta),
            final(self).wf(),
    {
        let state = tick_repeating(self.duration, self.elapsed, delta);
        proof {
            let total = self.elapsed + delta;
            assert(0 <= total % (self.duration as int) < self.duration);
        }
        self.elapsed = state.0;
        self.finished = state.1;
        self.times_finished_this_tick = state.2;
    }

    /// Whether the last tick completed a period.
    pub fn finished(&self) -> (done: bool)
        ensures
            done == self.finished,
    {
        self.finished
    }

    /// Whether the last tick completed at least one period.
    pub fn just_finished(&self) -> (done: bool)
        ensures
            done == (self.times_finished_this_tick > 0),
    {
        self.times_finished_this_tick > 0
    }
}

/// A tick loses no time: what was accumulated and what the tick adds is what
/// the completed periods took and what is carried over. The timer is finished
/// by a tick exactly when the tick completes a period, and what it carries
/// over is less than a period.
pub proof fn tick_conserves_time(timer: Timer, delta: u64)
    requires
        timer.can_tick(delta),
    ensures
        timer.elapsed + delta == timer.after(delta).times_finished_this_tick * timer.duration
            + timer.after(delta).elapsed,
        timer.after(delta).finished <==> timer.after(delta).times_finished_this_tick > 0,
        timer.after(delta).finished <==> timer.elapsed + delta >= timer.duration,
        timer.after(delta).elapsed < timer.duration,
{
    let total = timer.elapsed + delta;
    let period = timer.duration as int;
    assert(total == period * (total / period) + total % period) by (nonlinear_arith)
        requires
            period > 0,
    ;
    assert(0 <= total % period < period);
    assert(total / period >= 0) by (nonlinear_arith)
        requires
            period > 0,
            total >= 0,
    ;
    assert((total >= period) <==> (total / period > 0)) by (nonlinear_arith)
        requires
            period > 0,
            total >= 0,
    ;
    assert((total / period) * period == period * (total / period)) by (nonlinear_arith);
}

} // verus!
