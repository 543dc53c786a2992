//! Asteroids: spawned up to a population cap, removed once they stray.

use crate::fixed::Fixed;
use crate::frame::has_strayed;
use crate::frame::strays;
use crate::frame::Viewport;
use crate::motion::Accelleration;
use crate::motion::Body;
use crate::motion::Velocity;
use crate::sample::uniform;
use crate::sample::within;
use crate::spawn::placed_in;
use crate::spawn::random_place;
use crate::spawn::samplable;
use vstd::prelude::*;

verus! {

/// Smallest asteroid size, in millionths.
pub const ASTEROID_SIZE_MIN: i64 = 500_000;

/// Bound that asteroid sizes stay below, in millionths.
pub const ASTEROID_SIZE_MAX: i64 = 3_000_000;

/// Nearest asteroid depth, in millionths.
pub const ASTEROID_Z_MIN: i64 = 1_000_000;

/// Bound that asteroid depths stay below, in millionths.
pub const ASTEROID_Z_MAX: i64 = 10_000_000;

/// Most asteroids alive at once.
pub const NUM_ASTEROIDS: usize = 100;

/// Asteroids that the world starts with.
pub const NUM_INITIAL_ASTEROIDS: usize = NUM_ASTEROIDS / 4;

/// What a per-tick spawn divides the viewport extent by to push an
/// asteroid outward, in millionths.
pub const SPAWN_PUSH_DIVISOR: i64 = 1_500_000;

/// What the initial population divides the viewport extent by, in
/// millionths: a gentler push, nearer the centre.
pub const INITIAL_PUSH_DIVISOR: i64 = 4_000_000;

/// A drifting rock. Its size is fixed when it is made.
#[derive(Clone, Copy, Debug, PartialEq, Eq, Structural)]
pub struct Asteroid {
    pub size: Fixed,
    pub body: Body,
}

/// Whether `asteroid` is one that spawning into `viewport` can give: size
/// and depth within their ranges, placed by some pair of draws, moving with
/// an initial velocity, and not accelerating.
pub open spec fn fresh_asteroid(asteroid: Asteroid, viewport: Viewport, divisor: Fixed) -> bool {
    &&& within(asteroid.size, Fixed { raw: ASTEROID_SIZE_MIN }, Fixed { raw: ASTEROID_SIZE_MAX })
    &&& within(
        asteroid.body.transform.z,
        Fixed { raw: ASTEROID_Z_MIN },
        Fixed { raw: ASTEROID_Z_MAX },
    )
    &&& placed_in(asteroid.body.transform, viewport, divisor)
    &&& asteroid.body.velocity.is_initial()
    &&& asteroid.body.accelleration == (Accelleration {
        x: Fixed { raw: 0 },
        y: Fixed { raw: 0 },
        r: Fixed { raw: 0 },
    })
}

/// Whether asteroids can be spawned into `viewport`: there is room to draw
/// a place from on both axes.
pub open spec fn can_spawn_in(viewport: Viewport) -> bool {
    samplable(viewport.width) && samplable(viewport.height)
}

impl Asteroid {
    /// An asteroid of random size, at rest at the origin.
    pub fn new() -> (r: Asteroid)
        ensures
            within(r.size, Fixed { raw: ASTEROID_SIZE_MIN }, Fixed { raw: ASTEROID_SIZE_MAX }),
            r.body == Body::at_depth(Fixed { raw: 0 }),
    {
        Asteroid {
            size: uniform(Fixed { raw: ASTEROID_SIZE_MIN }, Fixed { raw: ASTEROID_SIZE_MAX }),
            body: Body::at_depth(Fixed { raw: 0 }),
        }
    }

    /// A new asteroid somewhere in or around `viewport`, or nothing when the
    /// viewport leaves no room to draw a place from.
    pub fn spawn(viewport: &Viewport, divisor: Fixed) -> (r: Option<Asteroid>)
        requires
            divisor@ != 0,
        ensures
            r is Some <==> can_spawn_in(*viewport),
            r is Some ==> fresh_asteroid(r->0, *viewport, divisor),
    {
        let depth = uniform(Fixed { raw: ASTEROID_Z_MIN }, Fixed { raw: ASTEROID_Z_MAX });
        match random_place(depth, viewport, divisor) {
            Some(transform) => {
                let mut asteroid = Asteroid::new();
                asteroid.body.transform = transform;
                asteroid.body.velocity = Velocity::random();
                Some(asteroid)
            },
            None => None,
        }
    }
}

/// Whether `after` is what one spawning pass into `viewport` can make of
/// the population `before`: below the cap and with room to draw a place
/// from, one fresh asteroid more at the end; otherwise the same population.
pub open spec fn asteroids_generated(
    viewport: Viewport,
    before: Seq<Asteroid>,
    after: Seq<Asteroid>,
) -> bool {
    if before.len() < NUM_ASTEROIDS && can_spawn_in(viewport) {
        &&& after.len() == before.len() + 1
        &&& after.drop_last() == before
        &&& fresh_asteroid(after.last(), viewport, Fixed { raw: SPAWN_PUSH_DIVISOR })
    } else {
        after == before
    }
}

/// Spawn one asteroid if fewer than [`NUM_ASTEROIDS`] are alive.
///
/// At most one asteroid is added per call, at the end, and none is touched.
/// Nothing is added once the cap is reached, nor when the viewport leaves no
/// room to draw a place from. A population within the cap stays within it.
pub fn generate_asteroids(viewport: &Viewport, asteroids: &mut Vec<Asteroid>)
    ensures
        asteroids_generated(*viewport, old(asteroids)@, final(asteroids)@),
        old(asteroids).len() <= NUM_ASTEROIDS ==> final(asteroids).len() <= NUM_ASTEROIDS,
{
    if NUM_ASTEROIDS > asteroids.len() {
        match Asteroid::spawn(viewport, Fixed { raw: SPAWN_PUSH_DIVISOR }) {
            Some(asteroid) => {
                asteroids.push(asteroid);
                assert(asteroids@.drop_last() == old(asteroids)@);
            },
            None => {},
        }
    }
}

/// The asteroids that the world starts with: [`NUM_INITIAL_ASTEROIDS`] of
/// them, placed nearer the centre than later ones, or none when the viewport
/// leaves no room to draw a place from.
pub fn initialize_asteroids(viewport: &Viewport) -> (asteroids: Vec<Asteroid>)
    ensures
        can_spawn_in(*viewport) ==> asteroids.len() == NUM_INITIAL_ASTEROIDS,
        !can_spawn_in(*viewport) ==> asteroids.len() == 0,
        forall|i: int|
            0 <= i < asteroids.len() ==> fresh_asteroid(
                #[trigger] asteroids[i],
                *viewport,
                Fixed { raw: INITIAL_PUSH_DIVISOR },
            ),
{
    let mut asteroids: Vec<Asteroid> = Vec::new();
    let mut made: usize = 0;
    while made < NUM_INITIAL_ASTEROIDS
        invariant
            made <= NUM_INITIAL_ASTEROIDS,
            can_spawn_in(*viewport) ==> asteroids.len() == made,
            !can_spawn_in(*viewport) ==> asteroids.len() == 0,
            forall|i: int|
                0 <= i < asteroids.len() ==> fresh_asteroid(
                    #[trigger] asteroids[i],
                    *viewport,
                    Fixed { raw: INITIAL_PUSH_DIVISOR },
                ),
        decreases NUM_INITIAL_ASTEROIDS - made,
    {
        match Asteroid::spawn(viewport, Fixed { raw: INITIAL_PUSH_DIVISOR }) {
            Some(asteroid) => {
                asteroids.push(asteroid);
            },
            None => {},
        }
        made += 1;
    }
    asteroids
}

/// Whether an asteroid is still near enough to the viewport to be kept.
pub open spec fn asteroid_stays(viewport: Viewport, asteroid: Asteroid) -> bool {
    !strays(viewport, asteroid.body.transform.x, asteroid.body.transform.y)
}

/// The asteroids of a population that are kept, in order.
pub open spec fn asteroids_kept(viewport: Viewport, asteroids: Seq<Asteroid>) -> Seq<Asteroid> {
    asteroids.filter(|a: Asteroid| asteroid_stays(viewport, a))
}

/// Remove every asteroid that has strayed farther from the centre than a
/// full viewport extent on either axis; the others stay, in order.
pub fn remove_stray_asteroids(viewport: &Viewport, asteroids: &mut Vec<Asteroid>)
    ensures
        final(asteroids)@ == asteroids_kept(*viewport, old(asteroids)@),
        final(asteroids).len() <= old(asteroids).len(),
{
    let ghost keep = |a: Asteroid| asteroid_stays(*viewport, a);
    let mut kept: Vec<Asteroid> = Vec::new();
    let mut i: usize = 0;
    while i < asteroids.len()
        invariant
            i <= asteroids.len(),
            asteroids@ == old(asteroids)@,
            keep == (|a: Asteroid| asteroid_stays(*viewport, a)),
            kept@ == asteroids@.take(i as int).filter(keep),
        decreases asteroids.len() - i,
    {
        let asteroid = asteroids[i];
        proof {
            reveal(Seq::filter);
            let next = asteroids@.take(i + 1);
            assert(next.drop_last() == asteroids@.take(i as int));
            assert(next.last() == asteroid);
        }
        if !has_strayed(viewport, asteroid.body.transform.x, asteroid.body.transform.y) {
            kept.push(asteroid);
        }
        i += 1;
    }
    proof {
        assert(asteroids@.take(i as int) == asteroids@);
        old(asteroids)@.lemma_filter_len(keep);
    }
    *asteroids = kept;
}

} // verus!
