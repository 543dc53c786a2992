//! A repeating timer that counts whole periods of elapsed time.

use bevy::time::Timer;
use bevy::time::TimerMode;
use std::time::Duration;
use vstd::arithmetic::div_mod::lemma_fundamental_div_mod;
use vstd::arithmetic::div_mod::lemma_hoist_over_denominator;
use vstd::arithmetic::div_mod::lemma_mod_multiples_vanish;
use vstd::prelude::*;

verus! {

/// A timer that starts over each time its period has elapsed.
///
/// Times are whole microseconds. The time into the current period is always
/// less than the period, and the period is never zero.
#[derive(Clone, Copy, Debug)]
pub struct RepeatingTimer {
    period_micros: u64,
    elapsed_micros: u64,
}

/// One tick of a repeating `bevy::time::Timer`: a timer of the given period
/// that is `elapsed_micros` into it is advanced by `delta_micros` with
/// `Timer::tick`, and the time it is then into its period comes back with
/// the count of `Timer::times_finished_this_tick`.
///
/// Trusted: for a running timer in repeating mode with a period that is not
/// zero, `tick` adds the delta to the elapsed time, counts how many whole
/// periods that makes, and keeps the rest as the new elapsed time. The count
/// cannot pass the delta, so it fits the 32 bits in which the timer holds it.
#[verifier::external_body]
fn tick_repeating(period_micros: u64, elapsed_micros: u64, delta_micros: u32) -> (r: (u64, u32))
    requires
        period_micros > 0,
        elapsed_micros < period_micros,
    ensures
        r.0 == (elapsed_micros + delta_micros) % (period_micros as int),
        r.1 == (elapsed_micros + delta_micros) / (period_micros as int),
{
    let mut timer = Timer::new(Duration::from_micros(period_micros), TimerMode::Repeating);
    timer.set_elapsed(Duration::from_micros(elapsed_micros));
    timer.tick(Duration::from_micros(delta_micros as u64));
    (timer.elapsed().as_micros() as u64, timer.times_finished_this_tick())
}

impl RepeatingTimer {
    #[verifier::type_invariant]
    spec fn well_formed(self) -> bool {
        self.period_micros > 0 && self.elapsed_micros < self.period_micros
    }

    /// Length of one period.
    pub closed spec fn period(self) -> nat {
        self.period_micros as nat
    }

    /// Time into the current period.
    pub closed spec fn elapsed(self) -> nat {
        self.elapsed_micros as nat
    }

    /// Whole periods completed when `delta` more microseconds pass.
    pub open spec fn periods_within(self, delta: nat) -> nat {
        (self.elapsed() + delta) / self.period()
    }

    /// Time into the current period after `delta` more microseconds.
    pub open spec fn elapsed_after(self, delta: nat) -> nat {
        (self.elapsed() + delta) % self.period()
    }

    /// A timer at the start of its first period.
    pub fn new(period_micros: u64) -> (r: RepeatingTimer)
        requires
            period_micros > 0,
        ensures
            r.period() == period_micros,
            r.elapsed() == 0,
    {
        RepeatingTimer { period_micros, elapsed_micros: 0 }
    }

    pub fn period_micros(&self) -> (r: u64)
        ensures
            r == self.period(),
            r > 0,
    {
        proof {
            use_type_invariant(self);
        }
        self.period_micros
    }

    pub fn elapsed_micros(&self) -> (r: u64)
        ensures
            r == self.elapsed(),
            r < self.period(),
    {
        proof {
            use_type_invariant(self);
        }
        self.elapsed_micros
    }

    /// Advance by `delta_micros` and return how many periods were completed.
    pub fn tick(&mut self, delta_micros: u32) -> (finished: u32)
        ensures
            finished == old(self).periods_within(delta_micros as nat),
            final(self).elapsed() == old(self).elapsed_after(delta_micros as nat),
            final(self).period() == old(self).period(),
    {
        proof {
            use_type_invariant(&*self);
        }
        let (elapsed, finished) = tick_repeating(
            self.period_micros,
            self.elapsed_micros,
            delta_micros,
        );
        self.elapsed_micros = elapsed;
        finished
    }
}

/// How a stretch of time is cut into ticks does not matter to a timer.
///
/// Let `later` be `timer` after `first` microseconds. Then the periods that
/// `timer` completes within `first`, and `later` within a further `second`,
/// add up to what `timer` completes within `first + second` at once, and
/// both ways leave the timer equally far into its period.
pub proof fn lemma_tick_chunking(
    timer: RepeatingTimer,
    later: RepeatingTimer,
    first: nat,
    second: nat,
)
    requires
        timer.period() > 0,
        later.period() == timer.period(),
        later.elapsed() == timer.elapsed_after(first),
    ensures
        timer.periods_within(first) + later.periods_within(second) == timer.periods_within(
            first + second,
        ),
        later.elapsed_after(second) == timer.elapsed_after(first + second),
{
    let p = timer.period() as int;
    let x = (timer.elapsed() + first) as int;
    let q = x / p;
    let r = x % p;
    lemma_fundamental_div_mod(x, p);
    assert(q * p == p * q) by (nonlinear_arith);
    lemma_hoist_over_denominator(r + second, q, p as nat);
    lemma_mod_multiples_vanish(q, r + second, p);
}

} // verus!
