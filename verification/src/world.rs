//! The world and its tick: every entity, the score and the fuel timer,
//! advanced in a fixed order.

use crate::asteroids::asteroids_kept;
use crate::asteroids::asteroids_generated;
use crate::asteroids::can_spawn_in;
use crate::asteroids::fresh_asteroid;
use crate::asteroids::generate_asteroids;
use crate::asteroids::initialize_asteroids;
use crate::asteroids::remove_stray_asteroids;
use crate::asteroids::Asteroid;
use crate::asteroids::INITIAL_PUSH_DIVISOR;
use crate::asteroids::NUM_ASTEROIDS;
use crate::asteroids::NUM_INITIAL_ASTEROIDS;
use crate::fixed::Fixed;
use crate::frame::Time;
use crate::frame::Viewport;
use crate::fuel::cans_left;
use crate::fuel::fuel_cans_kept;
use crate::fuel::fuel_collision;
use crate::fuel::fuel_generated;
use crate::fuel::generate_fuel;
use crate::fuel::refuelled;
use crate::fuel::remove_stray_fuel;
use crate::fuel::FuelCan;
use crate::fuel::FuelTimer;
use crate::fuel::FUEL_INTERVAL_MICROS;
use crate::motion::advance;
use crate::motion::advanced;
use crate::motion::Body;
use crate::player::bounced;
use crate::player::do_player_movement;
use crate::player::edge_bounce;
use crate::player::init_player;
use crate::player::steered;
use crate::player::Gamepad;
use crate::player::Heading;
use crate::player::Keyboard;
use crate::player::Player;
use crate::player::SteeringCommand;
use crate::player::INITIAL_FUEL;
use crate::player::PLAYER_Z;
use crate::score::count_score;
use crate::score::points_plus;
use crate::score::Score;
use crate::score::POINT_PERIOD_MICROS;
use vstd::prelude::*;

verus! {

/// Everything that lives in the simulation.
///
/// The asteroid population never exceeds [`NUM_ASTEROIDS`].
pub struct World {
    player: Player,
    asteroids: Vec<Asteroid>,
    fuel_cans: Vec<FuelCan>,
    score: Score,
    fuel_timer: FuelTimer,
}

/// An asteroid after one tick of `dt`.
pub open spec fn moved_asteroid(asteroid: Asteroid, dt: Fixed) -> Asteroid {
    Asteroid { size: asteroid.size, body: advanced(asteroid.body, dt) }
}

/// A fuel can after one tick of `dt`.
pub open spec fn moved_fuel_can(can: FuelCan, dt: Fixed) -> FuelCan {
    FuelCan { body: advanced(can.body, dt) }
}

/// Every asteroid after one tick of `dt`.
pub open spec fn moved_asteroids(asteroids: Seq<Asteroid>, dt: Fixed) -> Seq<Asteroid> {
    asteroids.map_values(|a: Asteroid| moved_asteroid(a, dt))
}

/// Every fuel can after one tick of `dt`.
pub open spec fn moved_fuel_cans(cans: Seq<FuelCan>, dt: Fixed) -> Seq<FuelCan> {
    cans.map_values(|c: FuelCan| moved_fuel_can(c, dt))
}

/// The asteroids after they have moved for `dt` and the stray ones have
/// been removed from `viewport`.
pub open spec fn asteroids_in_flight(
    asteroids: Seq<Asteroid>,
    dt: Fixed,
    viewport: Viewport,
) -> Seq<Asteroid> {
    asteroids_kept(viewport, moved_asteroids(asteroids, dt))
}

/// The fuel cans after they have moved for `dt` and the stray ones have
/// been removed from `viewport`.
pub open spec fn fuel_cans_in_flight(
    cans: Seq<FuelCan>,
    dt: Fixed,
    viewport: Viewport,
) -> Seq<FuelCan> {
    fuel_cans_kept(viewport, moved_fuel_cans(cans, dt))
}

/// The ship after it has been steered and has then moved for `dt`, before
/// the viewport's edge is looked at.
pub open spec fn player_in_flight(
    player: Player,
    command: SteeringCommand,
    heading: Heading,
    dt: Fixed,
) -> Player {
    Player {
        fuel: steered(player, command, heading, dt).fuel,
        is_thrusting: steered(player, command, heading, dt).is_thrusting,
        body: advanced(steered(player, command, heading, dt).body, dt),
    }
}

/// Whether `released` and then `left` are what the fuel pass of one tick
/// can make of the cans `afloat`: `released` is `afloat` with the can that
/// the tick releases, if it releases one, and `left` is what of `released`
/// is out of reach of the ship at `ship`.
pub open spec fn cans_released_and_picked(
    timer: FuelTimer,
    delta: nat,
    viewport: Viewport,
    afloat: Seq<FuelCan>,
    released: Seq<FuelCan>,
    ship: crate::motion::Transform,
    left: Seq<FuelCan>,
) -> bool {
    &&& fuel_generated(timer, delta, viewport, afloat, released)
    &&& left == cans_left(ship, released)
}

/// Whether `after` is what one tick can make of the world `before`.
///
/// The ship is steered by what the devices say, moves, and bounces off the
/// viewport's edge. Asteroids and cans move, the stray ones go, and the
/// spawning passes may add one of each. The ship then takes on the fuel of
/// every can within its reach, and those cans go. The score and the fuel
/// timer count the tick's time.
pub open spec fn stepped(
    before: World,
    after: World,
    time: Time,
    viewport: Viewport,
    keyboard: Keyboard,
    gamepads: Seq<Gamepad>,
    heading: Heading,
) -> bool {
    let dt = time.delta_seconds();
    let delta = time.delta_micros as nat;
    let flown = player_in_flight(
        before.player(),
        SteeringCommand::spec_read(keyboard, gamepads),
        heading,
        dt,
    );
    &&& bounced(viewport, flown.body, after.player().body)
    &&& after.player().is_thrusting == flown.is_thrusting
    &&& asteroids_generated(
        viewport,
        asteroids_in_flight(before.asteroids_view(), dt, viewport),
        after.asteroids_view(),
    )
    &&& exists|released: Seq<FuelCan>|
        {
            &&& #[trigger] cans_released_and_picked(
                before.fuel_timer(),
                delta,
                viewport,
                fuel_cans_in_flight(before.fuel_cans_view(), dt, viewport),
                released,
                after.player().body.transform,
                after.fuel_cans_view(),
            )
            &&& released.len() >= after.fuel_cans_view().len()
            &&& after.player().fuel == refuelled(
                flown.fuel,
                (released.len() - after.fuel_cans_view().len()) as nat,
            )
        }
    &&& after.fuel_timer().0.period() == before.fuel_timer().0.period()
    &&& after.fuel_timer().0.elapsed() == before.fuel_timer().0.elapsed_after(delta)
    &&& after.score().points() == points_plus(
        before.score().points(),
        before.score().next_point().periods_within(delta),
    )
    &&& after.score().next_point().period() == before.score().next_point().period()
    &&& after.score().next_point().elapsed() == before.score().next_point().elapsed_after(delta)
}

fn move_asteroids(time: &Time, asteroids: &mut Vec<Asteroid>)
    ensures
        final(asteroids)@ == moved_asteroids(old(asteroids)@, time.delta_seconds()),
{
    let ghost step = |a: Asteroid| moved_asteroid(a, time.delta_seconds());
    let mut moved: Vec<Asteroid> = Vec::new();
    let mut i: usize = 0;
    while i < asteroids.len()
        invariant
            i <= asteroids.len(),
            asteroids@ == old(asteroids)@,
            step == (|a: Asteroid| moved_asteroid(a, time.delta_seconds())),
            moved@ == asteroids@.take(i as int).map_values(step),
        decreases asteroids.len() - i,
    {
        let mut asteroid = asteroids[i];
        advance(time, &mut asteroid.body);
        moved.push(asteroid);
        assert(moved@ == asteroids@.take(i + 1).map_values(step));
        i += 1;
    }
    assert(asteroids@.take(i as int) == asteroids@);
    assert(moved@ == moved_asteroids(asteroids@, time.delta_seconds()));
    *asteroids = moved;
}

fn move_fuel_cans(time: &Time, cans: &mut Vec<FuelCan>)
    ensures
        final(cans)@ == moved_fuel_cans(old(cans)@, time.delta_seconds()),
{
    let ghost step = |c: FuelCan| moved_fuel_can(c, time.delta_seconds());
    let mut moved: Vec<FuelCan> = Vec::new();
    let mut i: usize = 0;
    while i < cans.len()
        invariant
            i <= cans.len(),
            cans@ == old(cans)@,
            step == (|c: FuelCan| moved_fuel_can(c, time.delta_seconds())),
            moved@ == cans@.take(i as int).map_values(step),
        decreases cans.len() - i,
    {
        let mut can = cans[i];
        advance(time, &mut can.body);
        moved.push(can);
        assert(moved@ == cans@.take(i + 1).map_values(step));
        i += 1;
    }
    assert(cans@.take(i as int) == cans@);
    assert(moved@ == moved_fuel_cans(cans@, time.delta_seconds()));
    *cans = moved;
}

impl World {
    #[verifier::type_invariant]
    spec fn within_cap(self) -> bool {
        self.asteroids.len() <= NUM_ASTEROIDS
    }

    /// The ship.
    pub closed spec fn spec_player(&self) -> Player {
        self.player
    }

    /// The asteroids alive, oldest first.
    pub closed spec fn asteroids_view(&self) -> Seq<Asteroid> {
        self.asteroids@
    }

    /// The fuel cans afloat, oldest first.
    pub closed spec fn fuel_cans_view(&self) -> Seq<FuelCan> {
        self.fuel_cans@
    }

    /// The score.
    pub closed spec fn spec_score(&self) -> Score {
        self.score
    }

    /// The timer that releases fuel cans.
    pub closed spec fn spec_fuel_timer(&self) -> FuelTimer {
        self.fuel_timer
    }

    /// A new world: the ship at the centre with a full tank, the initial
    /// asteroids around it, no fuel cans, no points, both timers at the
    /// start of a period.
    pub fn new(viewport: &Viewport) -> (world: World)
        ensures
            world.player().fuel@ == INITIAL_FUEL,
            !world.player().is_thrusting,
            world.player().body == Body::at_depth(Fixed { raw: PLAYER_Z }),
            can_spawn_in(*viewport) ==> world.asteroids_view().len() == NUM_INITIAL_ASTEROIDS,
            !can_spawn_in(*viewport) ==> world.asteroids_view().len() == 0,
            forall|i: int|
                0 <= i < world.asteroids_view().len() ==> fresh_asteroid(
                    #[trigger] world.asteroids_view()[i],
                    *viewport,
                    Fixed { raw: INITIAL_PUSH_DIVISOR },
                ),
            world.fuel_cans_view().len() == 0,
            world.score().points() == 0,
            world.score().next_point().period() == POINT_PERIOD_MICROS,
            world.score().next_point().elapsed() == 0,
            world.fuel_timer().0.period() == FUEL_INTERVAL_MICROS,
            world.fuel_timer().0.elapsed() == 0,
    {
        World {
            player: init_player(),
            asteroids: initialize_asteroids(viewport),
            fuel_cans: Vec::new(),
            score: Score::default(),
            fuel_timer: FuelTimer::default(),
        }
    }

    /// Advance the world by one tick.
    ///
    /// In order: the input steers the ship; every body moves; the ship
    /// bounces off the viewport's edge and stray asteroids and cans are
    /// removed; at most one asteroid and at most one can are spawned; the
    /// ship picks up the cans within its reach; the score counts the time.
    /// `heading` is the direction of the ship's nose as the tick begins.
    pub fn step(
        self,
        time: &Time,
        viewport: &Viewport,
        keyboard: &Keyboard,
        gamepads: &Vec<Gamepad>,
        heading: &Heading,
    ) -> (after: World)
        ensures
            stepped(self, after, *time, *viewport, *keyboard, gamepads@, *heading),
            after.asteroids_view().len() <= NUM_ASTEROIDS,
    {
        proof {
            use_type_invariant(&self);
        }
        let ghost dt = time.delta_seconds();
        let World { mut player, mut asteroids, mut fuel_cans, mut score, mut fuel_timer } = self;
        do_player_movement(time, keyboard, gamepads, heading, &mut player);
        advance(time, &mut player.body);
        move_asteroids(time, &mut asteroids);
        move_fuel_cans(time, &mut fuel_cans);
        edge_bounce(viewport, &mut player.body);
        remove_stray_asteroids(viewport, &mut asteroids);
        remove_stray_fuel(viewport, &mut fuel_cans);
        generate_asteroids(viewport, &mut asteroids);
        generate_fuel(time, &mut fuel_timer, viewport, &mut fuel_cans);
        let ghost released = fuel_cans@;
        fuel_collision(&mut player, &mut fuel_cans);
        count_score(time, &mut score);
        let after = World { player, asteroids, fuel_cans, score, fuel_timer };
        proof {
            assert(cans_released_and_picked(
                self.fuel_timer(),
                time.delta_micros as nat,
                *viewport,
                fuel_cans_in_flight(self.fuel_cans_view(), dt, *viewport),
                released,
                after.player().body.transform,
                after.fuel_cans_view(),
            ));
        }
        after
    }

    #[verifier::when_used_as_spec(spec_player)]
    pub fn player(&self) -> (r: Player)
        ensures
            r == self.spec_player(),
    {
        self.player
    }

    /// The asteroids alive; never more than [`NUM_ASTEROIDS`].
    pub fn asteroids(&self) -> (r: &Vec<Asteroid>)
        ensures
            r@ == self.asteroids_view(),
            r.len() <= NUM_ASTEROIDS,
    {
        proof {
            use_type_invariant(self);
        }
        &self.asteroids
    }

    pub fn fuel_cans(&self) -> (r: &Vec<FuelCan>)
        ensures
            r@ == self.fuel_cans_view(),
    {
        &self.fuel_cans
    }

    #[verifier::when_used_as_spec(spec_score)]
    pub fn score(&self) -> (r: Score)
        ensures
            r == self.spec_score(),
    {
        self.score
    }

    #[verifier::when_used_as_spec(spec_fuel_timer)]
    pub fn fuel_timer(&self) -> (r: FuelTimer)
        ensures
            r == self.spec_fuel_timer(),
    {
        self.fuel_timer
    }
}

} // verus!
