//! Time-based scoring: one point for every completed scoring period.

use crate::frame::Time;
use crate::timer::lemma_tick_chunking;
use crate::timer::RepeatingTimer;
use vstd::prelude::*;

verus! {

/// Points awarded per second of simulated time.
pub const POINTS_PER_SECOND: u64 = 2;

/// Length of one scoring period, in microseconds.
pub const POINT_PERIOD_MICROS: u64 = 1_000_000 / POINTS_PER_SECOND;

/// The score and the timer that earns the next point.
#[derive(Clone, Copy, Debug)]
pub struct Score {
    points: u64,
    next_point: RepeatingTimer,
}

/// A count of points raised by `earned`, held at the greatest count there is.
pub open spec fn points_plus(points: u64, earned: nat) -> u64 {
    if points + earned > u64::MAX {
        u64::MAX
    } else {
        (points + earned) as u64
    }
}

impl Score {
    /// Points counted so far.
    pub closed spec fn spec_points(&self) -> u64 {
        self.points
    }

    /// The timer that runs toward the next point.
    pub closed spec fn spec_next_point(&self) -> RepeatingTimer {
        self.next_point
    }

    #[verifier::when_used_as_spec(spec_points)]
    pub fn points(&self) -> (r: u64)
        ensures
            r == self.spec_points(),
    {
        self.points
    }

    #[verifier::when_used_as_spec(spec_next_point)]
    pub fn next_point(&self) -> (r: RepeatingTimer)
        ensures
            r == self.spec_next_point(),
    {
        self.next_point
    }
}

impl Default for Score {
    /// No points yet, and a full scoring period to go.
    fn default() -> (r: Score)
        ensures
            r.points() == 0,
            r.next_point().period() == POINT_PERIOD_MICROS,
            r.next_point().elapsed() == 0,
    {
        Score { points: 0, next_point: RepeatingTimer::new(POINT_PERIOD_MICROS) }
    }
}

/// Run the scoring timer for one tick and add a point for every period it
/// completed.
pub fn count_score(time: &Time, score: &mut Score)
    ensures
        final(score).points() == points_plus(
            old(score).points(),
            old(score).next_point().periods_within(time.delta_micros as nat),
        ),
        final(score).next_point().period() == old(score).next_point().period(),
        final(score).next_point().elapsed() == old(score).next_point().elapsed_after(
            time.delta_micros as nat,
        ),
{
    let finished = score.next_point.tick(time.delta_micros);
    let earned: u64 = finished as u64;
    if score.points > u64::MAX - earned {
        score.points = u64::MAX;
    } else {
        score.points = score.points + earned;
    }
}

/// The score does not depend on how time is cut into ticks.
///
/// Let `later` be `score` after a tick of `first` microseconds. Then a
/// further tick of `second` microseconds on `later` gives the points, and
/// leaves the scoring timer where, one tick of `first + second` microseconds
/// on `score` does.
pub proof fn lemma_score_chunking(score: Score, later: Score, first: nat, second: nat)
    requires
        score.next_point().period() > 0,
        later.points() == points_plus(score.points(), score.next_point().periods_within(first)),
        later.next_point().period() == score.next_point().period(),
        later.next_point().elapsed() == score.next_point().elapsed_after(first),
    ensures
        points_plus(later.points(), later.next_point().periods_within(second)) == points_plus(
            score.points(),
            score.next_point().periods_within(first + second),
        ),
        later.next_point().elapsed_after(second) == score.next_point().elapsed_after(
            first + second,
        ),
{
    lemma_tick_chunking(score.next_point(), later.next_point(), first, second);
}

} // verus!
