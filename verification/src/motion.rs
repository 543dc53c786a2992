//! Kinematics shared by every moving entity: acceleration, drag, movement.

use crate::fixed::lemma_times_bounds;
use crate::fixed::magnitude;
use crate::fixed::Fixed;
use crate::fixed::SCALE;
use crate::frame::Time;
use crate::sample::uniform;
use crate::sample::within;
use vstd::prelude::*;

verus! {

/// A full turn in radians, in millionths.
pub const TWO_PI: i64 = 6_283_185;

/// Drag coefficient of the two linear axes, in millionths.
pub const LINEAR_DRAG: i64 = 1_000;

/// Drag coefficient of the angular axis, a sixteenth of a half turn, in
/// millionths.
pub const ANGULAR_DRAG: i64 = 196_350;

/// Half a turn in radians, in millionths.
pub const PI: i64 = 3_141_593;

/// Fastest linear speed, per axis, that a spawned entity starts with, in
/// millionths.
pub const INITIAL_LINEAR_SPEED: i64 = 100_000_000;

/// Rate of change of a velocity: linear per axis, and angular.
#[derive(Clone, Copy, Debug, PartialEq, Eq, Structural)]
pub struct Accelleration {
    pub x: Fixed,
    pub y: Fixed,
    pub r: Fixed,
}

/// Linear velocity per axis, and angular velocity.
#[derive(Clone, Copy, Debug, PartialEq, Eq, Structural)]
pub struct Velocity {
    pub x: Fixed,
    pub y: Fixed,
    pub r: Fixed,
}

/// Where an entity is and how it is turned.
#[derive(Clone, Copy, Debug, PartialEq, Eq, Structural)]
pub struct Transform {
    pub x: Fixed,
    pub y: Fixed,
    /// Depth: orders what is drawn, and counts in the pickup test.
    pub z: Fixed,
    /// Angle about the depth axis, in radians; not kept within one turn.
    pub rotation: Fixed,
}

/// The physical state of an entity.
#[derive(Clone, Copy, Debug, PartialEq, Eq, Structural)]
pub struct Body {
    pub transform: Transform,
    pub velocity: Velocity,
    pub accelleration: Accelleration,
}

impl Accelleration {
    /// No acceleration on any axis.
    pub open spec fn spec_none() -> Accelleration {
        Accelleration { x: Fixed { raw: 0 }, y: Fixed { raw: 0 }, r: Fixed { raw: 0 } }
    }
}

impl Default for Accelleration {
    /// No acceleration on any axis.
    fn default() -> (r: Accelleration)
        ensures
            r == Accelleration::spec_none(),
    {
        Accelleration { x: Fixed { raw: 0 }, y: Fixed { raw: 0 }, r: Fixed { raw: 0 } }
    }
}

impl Default for Velocity {
    /// At rest on every axis.
    fn default() -> (r: Velocity)
        ensures
            r.x@ == 0 && r.y@ == 0 && r.r@ == 0,
    {
        Velocity { x: Fixed { raw: 0 }, y: Fixed { raw: 0 }, r: Fixed { raw: 0 } }
    }
}

impl Velocity {
    /// Whether this is a velocity that a spawned entity may start with:
    /// each linear speed from minus the fastest initial speed up to, not
    /// including, that speed, and the spin from minus half a turn up to, not
    /// including, half a turn.
    pub open spec fn is_initial(self) -> bool {
        &&& within(
            self.x,
            Fixed { raw: (-INITIAL_LINEAR_SPEED) as i64 },
            Fixed { raw: INITIAL_LINEAR_SPEED },
        )
        &&& within(
            self.y,
            Fixed { raw: (-INITIAL_LINEAR_SPEED) as i64 },
            Fixed { raw: INITIAL_LINEAR_SPEED },
        )
        &&& within(self.r, Fixed { raw: (-PI) as i64 }, Fixed { raw: PI })
    }

    /// A random initial velocity.
    pub fn random() -> (r: Velocity)
        ensures
            r.is_initial(),
    {
        let low = Fixed { raw: -INITIAL_LINEAR_SPEED };
        let high = Fixed { raw: INITIAL_LINEAR_SPEED };
        Velocity {
            x: uniform(low, high),
            y: uniform(low, high),
            r: uniform(Fixed { raw: -PI }, Fixed { raw: PI }),
        }
    }
}

impl Body {
    /// A body at the origin, at depth `z`, at rest and not accelerating.
    pub open spec fn spec_at_depth(z: Fixed) -> Body {
        Body {
            transform: Transform {
                x: Fixed { raw: 0 },
                y: Fixed { raw: 0 },
                z,
                rotation: Fixed { raw: 0 },
            },
            velocity: Velocity { x: Fixed { raw: 0 }, y: Fixed { raw: 0 }, r: Fixed { raw: 0 } },
            accelleration: Accelleration {
                x: Fixed { raw: 0 },
                y: Fixed { raw: 0 },
                r: Fixed { raw: 0 },
            },
        }
    }

    #[verifier::when_used_as_spec(spec_at_depth)]
    pub fn at_depth(z: Fixed) -> (r: Body)
        ensures
            r == Body::spec_at_depth(z),
    {
        Body {
            transform: Transform {
                x: Fixed { raw: 0 },
                y: Fixed { raw: 0 },
                z,
                rotation: Fixed { raw: 0 },
            },
            velocity: Velocity { x: Fixed { raw: 0 }, y: Fixed { raw: 0 }, r: Fixed { raw: 0 } },
            accelleration: Accelleration {
                x: Fixed { raw: 0 },
                y: Fixed { raw: 0 },
                r: Fixed { raw: 0 },
            },
        }
    }
}

/// What drag takes from the speed `v` over `dt`: `sign(v) * v * v * k * dt`.
pub open spec fn drag_term(v: Fixed, k: Fixed, dt: Fixed) -> Fixed {
    v.signum().times(v).times(v).times(k).times(dt)
}

/// The speed `v` after drag with coefficient `k` has acted for `dt`.
pub open spec fn with_drag(v: Fixed, k: Fixed, dt: Fixed) -> Fixed {
    v.minus(drag_term(v, k, dt))
}

/// The velocity `v` after the acceleration `a` and then drag have acted
/// for `dt`. The angular speed is reduced to less than a full turn, keeping
/// its sign, before drag is taken.
pub open spec fn accelerated(v: Velocity, a: Accelleration, dt: Fixed) -> Velocity {
    Velocity {
        x: with_drag(v.x.plus(a.x.times(dt)), Fixed { raw: LINEAR_DRAG }, dt),
        y: with_drag(v.y.plus(a.y.times(dt)), Fixed { raw: LINEAR_DRAG }, dt),
        r: with_drag(
            v.r.plus(a.r.times(dt)).modulo(Fixed { raw: TWO_PI }),
            Fixed { raw: ANGULAR_DRAG },
            dt,
        ),
    }
}

/// The transform `t` after moving with velocity `v` for `dt`.
pub open spec fn moved(t: Transform, v: Velocity, dt: Fixed) -> Transform {
    Transform {
        x: t.x.plus(v.x.times(dt)),
        y: t.y.plus(v.y.times(dt)),
        z: t.z,
        rotation: t.rotation.plus(v.r.times(dt)),
    }
}

/// The body after one tick of `dt`: acceleration and drag change the
/// velocity, then the new velocity moves the body.
pub open spec fn advanced(body: Body, dt: Fixed) -> Body {
    Body {
        transform: moved(
            body.transform,
            accelerated(body.velocity, body.accelleration, dt),
            dt,
        ),
        velocity: accelerated(body.velocity, body.accelleration, dt),
        accelleration: body.accelleration,
    }
}

fn apply_drag(v: Fixed, k: Fixed, dt: Fixed) -> (r: Fixed)
    ensures
        r == with_drag(v, k, dt),
{
    v.minus(v.signum().times(v).times(v).times(k).times(dt))
}

/// Acceleration to velocity, then drag: the first half of a body's tick.
pub fn process_accelleration(time: &Time, body: &mut Body)
    ensures
        final(body).velocity == accelerated(
            old(body).velocity,
            old(body).accelleration,
            time.delta_seconds(),
        ),
        final(body).transform == old(body).transform,
        final(body).accelleration == old(body).accelleration,
{
    let dt = time.delta_seconds();
    let accel = body.accelleration;
    let vel = body.velocity;
    let x = vel.x.plus(accel.x.times(dt));
    let y = vel.y.plus(accel.y.times(dt));
    let r = vel.r.plus(accel.r.times(dt)).modulo(Fixed { raw: TWO_PI });
    body.velocity = Velocity {
        x: apply_drag(x, Fixed { raw: LINEAR_DRAG }, dt),
        y: apply_drag(y, Fixed { raw: LINEAR_DRAG }, dt),
        r: apply_drag(r, Fixed { raw: ANGULAR_DRAG }, dt),
    };
}

/// Velocity to position and rotation: the second half of a body's tick.
pub fn process_movement(time: &Time, body: &mut Body)
    ensures
        final(body).transform == moved(
            old(body).transform,
            old(body).velocity,
            time.delta_seconds(),
        ),
        final(body).velocity == old(body).velocity,
        final(body).accelleration == old(body).accelleration,
{
    let dt = time.delta_seconds();
    let vel = body.velocity;
    let trans = body.transform;
    body.transform = Transform {
        x: trans.x.plus(vel.x.times(dt)),
        y: trans.y.plus(vel.y.times(dt)),
        z: trans.z,
        rotation: trans.rotation.plus(vel.r.times(dt)),
    };
}

/// Advance a body by one tick: [`process_accelleration`], then
/// [`process_movement`].
pub fn advance(time: &Time, body: &mut Body)
    ensures
        *final(body) == advanced(*old(body), time.delta_seconds()),
{
    process_accelleration(time, body);
    process_movement(time, body);
}

/// Drag slows a body down and never turns it round.
///
/// While the coefficient and the elapsed time are not negative and
/// `|v| * k * dt` is at most one, the speed after drag lies between zero and
/// the speed before, so its sign never flips and a body at rest stays at
/// rest; and whenever drag takes anything at all, the speed after is
/// strictly smaller in magnitude.
pub proof fn lemma_drag_slows_without_overshoot(v: Fixed, k: Fixed, dt: Fixed)
    requires
        k@ >= 0,
        dt@ >= 0,
        magnitude(v@) * k@ * dt@ <= SCALE * SCALE * SCALE,
    ensures
        v@ >= 0 ==> 0 <= with_drag(v, k, dt)@ <= v@,
        v@ <= 0 ==> v@ <= with_drag(v, k, dt)@ <= 0,
        drag_term(v, k, dt)@ != 0 ==> magnitude(with_drag(v, k, dt)@) < magnitude(v@),
{
    let t0 = v.signum().times(v);
    let t1 = t0.times(v);
    let t2 = t1.times(k);
    let t3 = t2.times(dt);
    lemma_times_bounds(v.signum(), v);
    lemma_times_bounds(t0, v);
    lemma_times_bounds(t1, k);
    lemma_times_bounds(t2, dt);
    let m = magnitude(v@);
    let m0 = magnitude(t0@);
    let m1 = magnitude(t1@);
    let m2 = magnitude(t2@);
    let m3 = magnitude(t3@);
    let kk = k@;
    let d = dt@;
    assert(m0 <= m) by (nonlinear_arith)
        requires
            m0 * 1_000_000 <= 1_000_000 * m,
    ;
    assert(m1 * 1_000_000 <= m * m) by (nonlinear_arith)
        requires
            m1 * 1_000_000 <= m0 * m,
            0 <= m0 <= m,
    ;
    assert(m3 * 1_000_000 * 1_000_000 * 1_000_000 <= m * (m * kk * d)) by (nonlinear_arith)
        requires
            m3 * 1_000_000 <= m2 * d,
            m2 * 1_000_000 <= m1 * kk,
            m1 * 1_000_000 <= m * m,
            kk >= 0,
            d >= 0,
            m >= 0,
    ;
    assert(m3 <= m) by (nonlinear_arith)
        requires
            m3 * 1_000_000 * 1_000_000 * 1_000_000 <= m * (m * kk * d),
            m * kk * d <= 1_000_000 * 1_000_000 * 1_000_000,
            m >= 0,
            m3 >= 0,
    ;
}

/// Whether the speed `after` is what is left of the speed `before` when it
/// has only been slowed: it lies between zero and `before`.
pub open spec fn slowed(before: Fixed, after: Fixed) -> bool {
    &&& before@ >= 0 ==> 0 <= after@ <= before@
    &&& before@ <= 0 ==> before@ <= after@ <= 0
}

/// A body that does not accelerate only slows down.
///
/// With no acceleration, and while `|v| * k * dt` is at most one on each
/// axis for that axis's drag coefficient, one tick leaves every component
/// of the velocity between zero and what it was: none grows, none changes
/// sign, and one that is zero stays zero.
pub proof fn lemma_coasting_slows(v: Velocity, dt: Fixed)
    requires
        dt@ >= 0,
        magnitude(v.x@) * LINEAR_DRAG * dt@ <= SCALE * SCALE * SCALE,
        magnitude(v.y@) * LINEAR_DRAG * dt@ <= SCALE * SCALE * SCALE,
        magnitude(v.r@) * ANGULAR_DRAG * dt@ <= SCALE * SCALE * SCALE,
    ensures
        slowed(v.x, accelerated(v, Accelleration::spec_none(), dt).x),
        slowed(v.y, accelerated(v, Accelleration::spec_none(), dt).y),
        slowed(v.r, accelerated(v, Accelleration::spec_none(), dt).r),
{
    let zero = Fixed { raw: 0 };
    assert(zero@ * dt@ == 0);
    assert(zero.times(dt) == zero);
    assert(v.x.plus(zero) == v.x);
    assert(v.y.plus(zero) == v.y);
    assert(v.r.plus(zero) == v.r);
    lemma_drag_slows_without_overshoot(v.x, Fixed { raw: LINEAR_DRAG }, dt);
    lemma_drag_slows_without_overshoot(v.y, Fixed { raw: LINEAR_DRAG }, dt);
    let wrapped = v.r.modulo(Fixed { raw: TWO_PI });
    let m = magnitude(v.r@);
    assert(0 <= m % 6_283_185 <= m);
    assert(magnitude(wrapped@) <= magnitude(v.r@));
    assert(magnitude(wrapped@) * ANGULAR_DRAG * dt@ <= magnitude(v.r@) * ANGULAR_DRAG * dt@)
        by (nonlinear_arith)
        requires
            0 <= magnitude(wrapped@) <= magnitude(v.r@),
            dt@ >= 0,
            ANGULAR_DRAG >= 0,
    ;
    lemma_drag_slows_without_overshoot(wrapped, Fixed { raw: ANGULAR_DRAG }, dt);
}

} // verus!
