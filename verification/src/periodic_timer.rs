//! A timer that reports when a fixed period has elapsed.
//!
//! `update` is called once per frame with the elapsed time since the last
//! call; `triggered` then reports whether a period boundary was crossed by
//! that most recent update. Catch-up is capped: however large the delta,
//! a single update fires at most once, and the accumulator is reset to
//! zero rather than firing repeatedly.

use vstd::prelude::*;

verus! {

/// Mathematical state of a [`PeriodicTimer`]: the fixed period, the time
/// accumulated since the last trigger, and whether the most recent update
/// crossed a period boundary. Times are in nanoseconds.
pub struct TimerView {
    pub period: int,
    pub accumulated: int,
    pub triggered: bool,
}

/// The state a timer with view `t` has after one `update` call that adds
/// `dt` nanoseconds: the delta is accumulated; if the period is reached,
/// it is subtracted once and the trigger flag is raised; if the remainder
/// still reaches the period, the accumulator is reset to zero instead of
/// firing again.
pub open spec fn timer_after(t: TimerView, dt: int) -> TimerView {
    let sum = t.accumulated + dt;
    if sum >= t.period {
        let rem = sum - t.period;
        TimerView {
            period: t.period,
            accumulated: if rem >= t.period { 0 } else { rem },
            triggered: true,
        }
    } else {
        TimerView {
            period: t.period,
            accumulated: sum,
            triggered: false,
        }
    }
}

/// Tracks when a given period has elapsed.
pub struct PeriodicTimer {
    period: u64,
    accumulated: u64,
    triggered_this_cycle: bool,
}

impl View for PeriodicTimer {
    type V = TimerView;

    closed spec fn view(&self) -> TimerView {
        TimerView {
            period: self.period as int,
            accumulated: self.accumulated as int,
            triggered: self.triggered_this_cycle,
        }
    }
}

impl PeriodicTimer {
    /// A fresh timer: nothing accumulated, not triggered.
    pub fn new(period_ns: u64) -> (t: Self)
        ensures
            t@ == (TimerView { period: period_ns as int, accumulated: 0, triggered: false }),
    {
        Self {
            period: period_ns,
            accumulated: 0,
            triggered_this_cycle: false,
        }
    }

    /// Accumulates `dt_ns` and recomputes the trigger flag, exactly as
    /// [`timer_after`] describes. After any update of a timer with a
    /// positive period, the accumulator lies in `[0, period)`.
    pub fn update(&mut self, dt_ns: u64)
        ensures
            final(self)@ == timer_after(old(self)@, dt_ns as int),
            old(self)@.period > 0 ==> 0 <= final(self)@.accumulated < old(self)@.period,
    {
        let sum: u128 = self.accumulated as u128 + dt_ns as u128;
        let period: u128 = self.period as u128;

        if sum >= period {
            let rem: u128 = sum - period;

            if rem >= period {
                self.accumulated = 0;
            } else {
                self.accumulated = rem as u64;
            }

            self.triggered_this_cycle = true;
        } else {
            self.accumulated = sum as u64;
            self.triggered_this_cycle = false;
        }
    }

    /// Whether the most recent `update` crossed a period boundary. Not
    /// idempotent across frames: the flag is recomputed by every update,
    /// so a caller polls it once per step.
    pub fn triggered(&self) -> (r: bool)
        ensures
            r == self@.triggered,
    {
        self.triggered_this_cycle
    }

    /// Nanoseconds accumulated since the last trigger.
    pub fn accumulated_ns(&self) -> (r: u64)
        ensures
            r as int == self@.accumulated,
    {
        self.accumulated
    }

    /// The period this timer was constructed with, in nanoseconds.
    pub fn period_ns(&self) -> (r: u64)
        ensures
            r as int == self@.period,
    {
        self.period
    }
}

/// A single update whose delta reaches two full periods triggers exactly
/// once and resets the accumulator to zero: catch-up is capped at one
/// trigger per update call.
pub proof fn lemma_large_dt_triggers_once_and_resets(t: TimerView, dt: int)
    requires
        t.period >= 0,
        t.accumulated >= 0,
        dt >= 2 * t.period,
    ensures
        timer_after(t, dt).triggered,
        timer_after(t, dt).accumulated == 0,
{
}

} // verus!
