//! A periodic timer that counts elapsed time in an accumulator.

use vstd::prelude::*;

verus! {

/// A repeating timer.
///
/// The timer gathers the time it is given until a whole period has passed,
/// and keeps what is left over for the next period. A timer whose period is
/// zero completes once on every tick.
#[derive(Clone, Copy, Debug, PartialEq, Eq, Structural)]
pub struct Timer {
    /// Length of one period, in microseconds.
    pub period: u64,
    /// Time gathered since the last completed period.
    pub elapsed: u64,
    /// Whether the last tick completed a period.
    pub finished: bool,
    /// How many periods the last tick completed.
    pub times_finished_this_tick: u64,
}

impl Timer {
    /// The gathered time is less than a period, or zero where the period is
    /// zero.
    pub open spec fn wf(self) -> bool {
        if self.period == 0 {
            self.elapsed == 0
        } else {
            self.elapsed < self.period
        }
    }

    /// The timer after `delta` more microseconds.
    pub open spec fn ticked(self, delta: u64) -> Timer {
        if self.period == 0 {
            Timer { period: 0, elapsed: 0, finished: true, times_finished_this_tick: 1 }
        } else {
            let total = self.elapsed + delta;
            Timer {
                period: self.period,
                elapsed: (total % (self.period as int)) as u64,
                finished: total >= self.period,
                times_finished_this_tick: (total / (self.period as int)) as u64,
            }
        }
    }

    /// A timer of the given period that has gathered no time yet.
    pub fn new(period: u64) -> (timer: Timer)
        ensures
            timer == (Timer { period, elapsed: 0, finished: false, times_finished_this_tick: 0 }),
            timer.wf(),
    {
        Timer { period, elapsed: 0, finished: false, times_finished_this_tick: 0 }
    }

    /// Advances the timer by `delta` microseconds.
    ///
    /// The timer completes as many periods as fit into the time gathered so
    /// far and `delta` together, and keeps the remainder. With a period of
    /// zero nothing is divided: the timer completes once and gathers
    /// nothing.
    pub fn tick(&mut self, delta: u64)
        requires
            old(self).wf(),
        ensures
            *final(self) == old(self).ticked(delta),
            final(self).wf(),
            final(self).finished <==> old(self).elapsed + delta >= old(self).period,
            final(self).finished <==> final(self).times_finished_this_tick > 0,
    {
        if self.period == 0 {
            self.finished = true;
            self.times_finished_this_tick = 1;
        } else {
            let period: u128 = self.period as u128;
            let total: u128 = self.elapsed as u128 + delta as u128;
            let times: u128 = total / period;
            let rest: u128 = total % period;
            proof {
                lemma_quotient_bound(self.elapsed as int, delta as int, self.period as int);
            }
            self.elapsed = rest as u64;
            self.finished = total >= period;
            self.times_finished_this_tick = times as u64;
        }
    }

    /// Tells whether the timer is sound, which is what `tick` asks of it.
    pub fn is_sound(&self) -> (ok: bool)
        ensures
            ok == self.wf(),
    {
        if self.period == 0 {
            self.elapsed == 0
        } else {
            self.elapsed < self.period
        }
    }

    /// Whether the last tick completed a period.
    pub fn finished(&self) -> (done: bool)
        ensures
            done == self.finished,
    {
        self.finished
    }
}

proof fn lemma_quotient_bound(elapsed: int, delta: int, period: int)
    requires
        0 <= elapsed < period,
        0 <= delta <= u64::MAX,
    ensures
        0 <= (elapsed + delta) / period <= u64::MAX,
        0 <= (elapsed + delta) % period < period,
        (elapsed + delta) / period > 0 <==> elapsed + delta >= period,
{
    let total = elapsed + delta;
    let q = total / period;
    let r = total % period;
    assert(total == period * q + r && 0 <= r < period) by (nonlinear_arith)
        requires
            q == total / period,
            r == total % period,
            period > 0,
    ;
    assert(q >= 0) by (nonlinear_arith)
        requires
            total == period * q + r,
            0 <= r < period,
            total >= 0,
    ;
    assert(q <= u64::MAX) by (nonlinear_arith)
        requires
            total == period * q + r,
            0 <= r,
            total < period + u64::MAX,
            period >= 1,
            q >= 0,
    ;
    assert(q > 0 <==> total >= period) by (nonlinear_arith)
        requires
            total == period * q + r,
            0 <= r < period,
            q >= 0,
    ;
}

} // verus!
