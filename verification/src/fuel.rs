//! Fuel cans: spawned on a timer, picked up by the ship, removed once they
//! stray.

use crate::fixed::magnitude;
use crate::fixed::saturate;
use crate::fixed::Fixed;
use crate::frame::has_strayed;
use crate::frame::strays;
use crate::frame::Time;
use crate::frame::Viewport;
use crate::motion::Accelleration;
use crate::motion::Body;
use crate::motion::Transform;
use crate::motion::Velocity;
use crate::player::Player;
use crate::spawn::placed_in;
use crate::spawn::random_place;
use crate::spawn::samplable;
use crate::timer::RepeatingTimer;
use vstd::prelude::*;

verus! {

/// Time between fuel cans, in microseconds.
pub const FUEL_INTERVAL_MICROS: u64 = 5_000_000;

/// Fuel that one can holds, in millionths.
pub const FUEL_PER_CAN: i64 = 10_000_000;

/// Depth at which fuel cans float, in millionths.
pub const FUEL_CAN_Z: i64 = 90_000_000;

/// Scale at which fuel cans are drawn, in millionths.
pub const FUEL_CAN_SCALE: i64 = 1_500_000;

/// What a spawn divides the viewport extent by to push a can outward, in
/// millionths.
pub const FUEL_PUSH_DIVISOR: i64 = 3_000_000;

/// How near, on every axis, the ship must be to a can to pick it up, in
/// millionths.
pub const PICKUP_REACH: i64 = 32_000_000;

/// A floating fuel can.
#[derive(Clone, Copy, Debug, PartialEq, Eq, Structural)]
pub struct FuelCan {
    pub body: Body,
}

/// The timer that releases fuel cans.
#[derive(Clone, Copy, Debug)]
pub struct FuelTimer(pub RepeatingTimer);

impl Default for FuelTimer {
    /// A full interval to go until the first can.
    fn default() -> (r: FuelTimer)
        ensures
            r.0.period() == FUEL_INTERVAL_MICROS,
            r.0.elapsed() == 0,
    {
        FuelTimer(RepeatingTimer::new(FUEL_INTERVAL_MICROS))
    }
}

/// Whether `can` is one that spawning into `viewport` can give: at the fuel
/// depth, placed by some pair of draws, moving with an initial velocity, and
/// not accelerating.
pub open spec fn fresh_fuel_can(can: FuelCan, viewport: Viewport) -> bool {
    &&& can.body.transform.z@ == FUEL_CAN_Z
    &&& placed_in(can.body.transform, viewport, Fixed { raw: FUEL_PUSH_DIVISOR })
    &&& can.body.velocity.is_initial()
    &&& can.body.accelleration == (Accelleration {
        x: Fixed { raw: 0 },
        y: Fixed { raw: 0 },
        r: Fixed { raw: 0 },
    })
}

/// Whether a tick of `delta` microseconds releases a can into `viewport`:
/// the timer completes a period within the tick, and the viewport leaves
/// room to draw a place from.
pub open spec fn releases_fuel(timer: FuelTimer, delta: nat, viewport: Viewport) -> bool {
    &&& timer.0.periods_within(delta) > 0
    &&& samplable(viewport.width)
    &&& samplable(viewport.height)
}

/// Whether `after` is what a tick of `delta` microseconds can make of the
/// cans `before`: where the tick releases a can, one fresh can more at the
/// end; otherwise the same cans.
pub open spec fn fuel_generated(
    timer: FuelTimer,
    delta: nat,
    viewport: Viewport,
    before: Seq<FuelCan>,
    after: Seq<FuelCan>,
) -> bool {
    if releases_fuel(timer, delta, viewport) {
        &&& after.len() == before.len() + 1
        &&& after.drop_last() == before
        &&& fresh_fuel_can(after.last(), viewport)
    } else {
        after == before
    }
}

/// Run the fuel timer for one tick and spawn a can if it completed a
/// period.
///
/// One can at most is added per tick, at the end, however many periods the
/// tick spans, and none is touched.
pub fn generate_fuel(
    time: &Time,
    timer: &mut FuelTimer,
    viewport: &Viewport,
    cans: &mut Vec<FuelCan>,
)
    ensures
        final(timer).0.period() == old(timer).0.period(),
        final(timer).0.elapsed() == old(timer).0.elapsed_after(time.delta_micros as nat),
        fuel_generated(
            *old(timer),
            time.delta_micros as nat,
            *viewport,
            old(cans)@,
            final(cans)@,
        ),
{
    let finished = timer.0.tick(time.delta_micros);
    if finished > 0 {
        match random_place(Fixed { raw: FUEL_CAN_Z }, viewport, Fixed { raw: FUEL_PUSH_DIVISOR }) {
            Some(transform) => {
                let can = FuelCan {
                    body: Body {
                        transform,
                        velocity: Velocity::random(),
                        accelleration: Accelleration::default(),
                    },
                };
                cans.push(can);
                assert(cans@.drop_last() == old(cans)@);
            },
            None => {},
        }
    }
}

/// Whether two points are within pickup reach of one another: no farther
/// apart than [`PICKUP_REACH`] on each of the three axes.
pub open spec fn within_reach(a: Transform, b: Transform) -> bool {
    &&& magnitude(a.x@ - b.x@) <= PICKUP_REACH
    &&& magnitude(a.y@ - b.y@) <= PICKUP_REACH
    &&& magnitude(a.z@ - b.z@) <= PICKUP_REACH
}

fn axis_within_reach(a: Fixed, b: Fixed) -> (r: bool)
    ensures
        r == (magnitude(a@ - b@) <= PICKUP_REACH),
{
    let difference: i128 = (a.raw as i128) - (b.raw as i128);
    -(PICKUP_REACH as i128) <= difference && difference <= PICKUP_REACH as i128
}

pub fn is_within_reach(a: &Transform, b: &Transform) -> (r: bool)
    ensures
        r == within_reach(*a, *b),
{
    axis_within_reach(a.x, b.x) && axis_within_reach(a.y, b.y) && axis_within_reach(a.z, b.z)
}

/// Whether a can is out of the ship's reach, and so is left floating.
pub open spec fn can_remains(ship: Transform, can: FuelCan) -> bool {
    !within_reach(can.body.transform, ship)
}

/// The cans that are left floating when the ship at `ship` has picked up
/// those within its reach, in order.
pub open spec fn cans_left(ship: Transform, cans: Seq<FuelCan>) -> Seq<FuelCan> {
    cans.filter(|c: FuelCan| can_remains(ship, c))
}

/// A tank that held `fuel` after `picked` cans were emptied into it.
pub open spec fn refuelled(fuel: Fixed, picked: nat) -> Fixed {
    saturate(fuel@ + picked * FUEL_PER_CAN)
}

/// Let the ship pick up every can within its reach.
///
/// All cans are judged against the ship where it is now, so several may be
/// picked up in one pass. Each can picked up is removed and adds
/// [`FUEL_PER_CAN`] to the tank; the others stay, in order.
pub fn fuel_collision(player: &mut Player, cans: &mut Vec<FuelCan>)
    ensures
        final(cans)@ == cans_left(old(player).body.transform, old(cans)@),
        final(cans).len() <= old(cans).len(),
        final(player).fuel == refuelled(
            old(player).fuel,
            (old(cans).len() - final(cans).len()) as nat,
        ),
        final(player).is_thrusting == old(player).is_thrusting,
        final(player).body == old(player).body,
{
    let ship = player.body.transform;
    let ghost remains = |c: FuelCan| can_remains(ship, c);
    let mut kept: Vec<FuelCan> = Vec::new();
    let mut fuel = player.fuel;
    let mut i: usize = 0;
    while i < cans.len()
        invariant
            i <= cans.len(),
            cans@ == old(cans)@,
            ship == old(player).body.transform,
            remains == (|c: FuelCan| can_remains(ship, c)),
            kept@ == cans@.take(i as int).filter(remains),
            kept@.len() <= i,
            fuel == refuelled(old(player).fuel, (i - kept@.len()) as nat),
        decreases cans.len() - i,
    {
        let can = cans[i];
        proof {
            reveal(Seq::filter);
            let next = cans@.take(i + 1);
            assert(next.drop_last() == cans@.take(i as int));
            assert(next.last() == can);
        }
        if is_within_reach(&can.body.transform, &ship) {
            let ghost picked = (i - kept@.len()) as nat;
            assert((picked + 1) * FUEL_PER_CAN == picked * FUEL_PER_CAN + FUEL_PER_CAN)
                by (nonlinear_arith);
            assert(picked * FUEL_PER_CAN >= 0) by (nonlinear_arith);
            fuel = fuel.plus(Fixed { raw: FUEL_PER_CAN });
        } else {
            kept.push(can);
        }
        i += 1;
    }
    proof {
        assert(cans@.take(i as int) == cans@);
    }
    player.fuel = fuel;
    *cans = kept;
}

/// A pickup pass takes every can within the ship's reach and no other: no
/// can that is left is within reach, and every can out of reach is left.
pub proof fn lemma_pickup_takes_all_in_reach(ship: Transform, cans: Seq<FuelCan>)
    ensures
        forall|i: int|
            0 <= i < cans_left(ship, cans).len() ==> !within_reach(
                (#[trigger] cans_left(ship, cans)[i]).body.transform,
                ship,
            ),
        forall|i: int|
            0 <= i < cans.len() && !within_reach(cans[i].body.transform, ship) ==> cans_left(
                ship,
                cans,
            ).contains(#[trigger] cans[i]),
{
    let remains = |c: FuelCan| can_remains(ship, c);
    assert forall|i: int| 0 <= i < cans_left(ship, cans).len() implies !within_reach(
        (#[trigger] cans_left(ship, cans)[i]).body.transform,
        ship,
    ) by {
        cans.lemma_filter_pred(remains, i);
    }
    assert forall|i: int|
        0 <= i < cans.len() && !within_reach(cans[i].body.transform, ship) implies cans_left(
        ship,
        cans,
    ).contains(#[trigger] cans[i]) by {
        cans.lemma_filter_contains(remains, i);
    }
}

/// Whether a can is still near enough to the viewport to be kept.
pub open spec fn fuel_can_stays(viewport: Viewport, can: FuelCan) -> bool {
    !strays(viewport, can.body.transform.x, can.body.transform.y)
}

/// The cans that are kept, in order.
pub open spec fn fuel_cans_kept(viewport: Viewport, cans: Seq<FuelCan>) -> Seq<FuelCan> {
    cans.filter(|c: FuelCan| fuel_can_stays(viewport, c))
}

/// Remove every can that has strayed farther from the centre than a full
/// viewport extent on either axis; the others stay, in order.
pub fn remove_stray_fuel(viewport: &Viewport, cans: &mut Vec<FuelCan>)
    ensures
        final(cans)@ == fuel_cans_kept(*viewport, old(cans)@),
        final(cans).len() <= old(cans).len(),
{
    let ghost keep = |c: FuelCan| fuel_can_stays(*viewport, c);
    let mut kept: Vec<FuelCan> = Vec::new();
    let mut i: usize = 0;
    while i < cans.len()
        invariant
            i <= cans.len(),
            cans@ == old(cans)@,
            keep == (|c: FuelCan| fuel_can_stays(*viewport, c)),
            kept@ == cans@.take(i as int).filter(keep),
        decreases cans.len() - i,
    {
        let can = cans[i];
        proof {
            reveal(Seq::filter);
            let next = cans@.take(i + 1);
            assert(next.drop_last() == cans@.take(i as int));
            assert(next.last() == can);
        }
        if !has_strayed(viewport, can.body.transform.x, can.body.transform.y) {
            kept.push(can);
        }
        i += 1;
    }
    proof {
        assert(cans@.take(i as int) == cans@);
        old(cans)@.lemma_filter_len(keep);
    }
    *cans = kept;
}

} // verus!
