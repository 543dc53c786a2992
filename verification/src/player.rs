//! The player's ship: steering, fuel use, sprite choice and edge bounce.

use crate::fixed::magnitude;
use crate::fixed::lemma_scaled_quotient;
use crate::fixed::Fixed;
use crate::fixed::SCALE;
use crate::frame::beyond;
use crate::frame::half;
use crate::frame::half_of;
use crate::frame::is_beyond;
use crate::frame::Time;
use crate::frame::Viewport;
use crate::motion::Body;
use crate::motion::TWO_PI;
use crate::sample::uniform;
use crate::sample::within;
use crate::util::abs_max;
use vstd::prelude::*;

verus! {

/// Depth at which the ship is drawn, in millionths.
pub const PLAYER_Z: i64 = 100_000_000;

/// Fuel the ship starts with, in millionths.
pub const INITIAL_FUEL: i64 = 60_000_000;

/// Acceleration along the ship's nose at full thrust, in millionths.
pub const LATERAL_ACCELLERATION: i64 = 50_000_000;

/// Angular acceleration at full rotation command, an eighth of a turn per
/// second squared, in millionths.
pub const ANGULAR_ACCELLERATION: i64 = 785_398;

/// Analog input at or below this magnitude is ignored, in millionths.
pub const GAMEPAD_DEADZONE: i64 = 100_000;

/// Sprite shown while the engine is off.
pub const SPRITE_INDEX_IDLE: usize = 0;

/// Sprite shown while the engine burns.
pub const SPRITE_INDEX_THRUSTING: usize = 1;

/// The ship: its body, its fuel, and whether its engine burns this tick.
///
/// Fuel has no floor and no ceiling of its own: a burn may take it below
/// zero, and pickups may raise it above what the ship started with.
#[derive(Clone, Copy, Debug, PartialEq, Eq, Structural)]
pub struct Player {
    pub fuel: Fixed,
    pub is_thrusting: bool,
    pub body: Body,
}

impl Default for Player {
    /// A ship with a full tank and a cold engine, at rest at the origin.
    fn default() -> (r: Player)
        ensures
            r.fuel@ == INITIAL_FUEL,
            !r.is_thrusting,
            r.body == Body::at_depth(Fixed { raw: 0 }),
    {
        Player {
            fuel: Fixed { raw: INITIAL_FUEL },
            is_thrusting: false,
            body: Body::at_depth(Fixed { raw: 0 }),
        }
    }
}

/// The ship as the world starts: a default ship at the player's depth.
pub fn init_player() -> (r: Player)
    ensures
        r.fuel@ == INITIAL_FUEL,
        !r.is_thrusting,
        r.body == Body::at_depth(Fixed { raw: PLAYER_Z }),
{
    let mut player = Player::default();
    player.body = Body::at_depth(Fixed { raw: PLAYER_Z });
    player
}

/// Keys held down this tick.
#[derive(Clone, Copy, Debug, PartialEq, Eq, Structural)]
pub struct Keyboard {
    /// A thrust key is down.
    pub thrust: bool,
    /// A turn-left key is down.
    pub left: bool,
    /// A turn-right key is down.
    pub right: bool,
}

/// What one gamepad reports this tick. An axis that the pad does not have
/// reports nothing.
#[derive(Clone, Copy, Debug)]
pub struct Gamepad {
    pub dpad_up: bool,
    pub dpad_left: bool,
    pub dpad_right: bool,
    pub left_stick_x: Option<Fixed>,
    pub left_stick_y: Option<Fixed>,
    pub right_trigger: Option<Fixed>,
}

/// Digital rotation command.
#[derive(Clone, Copy, Debug, PartialEq, Eq, Structural)]
pub enum Turn {
    Left,
    Right,
    Straight,
}

/// What the pilot asks of the ship this tick.
#[derive(Clone, Copy, Debug, PartialEq, Eq, Structural)]
pub struct SteeringCommand {
    pub thrust_digital: bool,
    /// Analog thrust, zero when there is no analog source.
    pub thrust_analog: Fixed,
    pub rotate_digital: Turn,
    /// Analog rotation, positive to the right, zero when there is no analog
    /// source.
    pub rotate_analog: Fixed,
}

/// Direction of the ship's nose: sine and cosine of its negated rotation.
#[derive(Clone, Copy, Debug, PartialEq, Eq, Structural)]
pub struct Heading {
    pub sin: Fixed,
    pub cos: Fixed,
}

/// Of two numbers the one larger in magnitude, the first on a tie.
pub open spec fn larger(a: Fixed, b: Fixed) -> Fixed {
    if a.magnitude()@ >= b.magnitude()@ {
        a
    } else {
        b
    }
}

fn larger_of(a: Fixed, b: Fixed) -> (r: Fixed)
    ensures
        r == larger(a, b),
{
    abs_max(a, b)
}

/// Analog thrust after one more gamepad has been heard: the strongest of
/// what was there, a pressed pad-up button at full thrust, the stick and the
/// trigger; never negative.
pub open spec fn thrust_with(thrust: Fixed, pad: Gamepad) -> Fixed {
    let button = if pad.dpad_up {
        larger(thrust, Fixed { raw: SCALE })
    } else {
        thrust
    };
    let stick = match pad.left_stick_y {
        Some(v) => larger(button, v),
        None => button,
    };
    let trigger = match pad.right_trigger {
        Some(v) => larger(stick, v),
        None => stick,
    };
    if trigger@ <= 0 {
        Fixed { raw: 0 }
    } else {
        trigger
    }
}

/// Analog rotation after one more gamepad has been heard: the strongest of
/// what was there, a pressed pad button at full deflection (right before
/// left), and the stick.
pub open spec fn rotation_with(rotation: Fixed, pad: Gamepad) -> Fixed {
    let button = if pad.dpad_right {
        larger(rotation, Fixed { raw: SCALE })
    } else if pad.dpad_left {
        larger(rotation, Fixed { raw: (-SCALE) as i64 })
    } else {
        rotation
    };
    match pad.left_stick_x {
        Some(v) => larger(button, v),
        None => button,
    }
}

/// Analog thrust of all gamepads, heard in order.
pub open spec fn gamepad_thrust(pads: Seq<Gamepad>) -> Fixed
    decreases pads.len(),
{
    if pads.len() == 0 {
        Fixed { raw: 0 }
    } else {
        thrust_with(gamepad_thrust(pads.drop_last()), pads.last())
    }
}

/// Analog rotation of all gamepads, heard in order.
pub open spec fn gamepad_rotation(pads: Seq<Gamepad>) -> Fixed
    decreases pads.len(),
{
    if pads.len() == 0 {
        Fixed { raw: 0 }
    } else {
        rotation_with(gamepad_rotation(pads.drop_last()), pads.last())
    }
}

/// The digital rotation that the keys ask for; left wins over right.
pub open spec fn keyboard_turn(keyboard: Keyboard) -> Turn {
    if keyboard.left {
        Turn::Left
    } else if keyboard.right {
        Turn::Right
    } else {
        Turn::Straight
    }
}

impl SteeringCommand {
    /// The command that the keyboard and the gamepads give together.
    pub open spec fn spec_read(keyboard: Keyboard, gamepads: Seq<Gamepad>) -> SteeringCommand {
        SteeringCommand {
            thrust_digital: keyboard.thrust,
            thrust_analog: gamepad_thrust(gamepads),
            rotate_digital: keyboard_turn(keyboard),
            rotate_analog: gamepad_rotation(gamepads),
        }
    }

    /// Read the devices into one command.
    pub fn read(keyboard: &Keyboard, gamepads: &Vec<Gamepad>) -> (r: SteeringCommand)
        ensures
            r == SteeringCommand::spec_read(*keyboard, gamepads@),
    {
        let mut thrust = Fixed { raw: 0 };
        let mut rotation = Fixed { raw: 0 };
        let mut i: usize = 0;
        while i < gamepads.len()
            invariant
                i <= gamepads.len(),
                thrust == gamepad_thrust(gamepads@.take(i as int)),
                rotation == gamepad_rotation(gamepads@.take(i as int)),
            decreases gamepads.len() - i,
        {
            let pad = gamepads[i];
            proof {
                let next = gamepads@.take(i + 1);
                assert(next.drop_last() == gamepads@.take(i as int));
                assert(next.last() == pad);
            }
            if pad.dpad_up {
                thrust = larger_of(thrust, Fixed { raw: SCALE });
            }
            if let Some(v) = pad.left_stick_y {
                thrust = larger_of(thrust, v);
            }
            if let Some(v) = pad.right_trigger {
                thrust = larger_of(thrust, v);
            }
            if thrust.raw <= 0 {
                thrust = Fixed { raw: 0 };
            }
            if pad.dpad_right {
                rotation = larger_of(rotation, Fixed { raw: SCALE });
            } else if pad.dpad_left {
                rotation = larger_of(rotation, Fixed { raw: -SCALE });
            }
            if let Some(v) = pad.left_stick_x {
                rotation = larger_of(rotation, v);
            }
            i += 1;
        }
        assert(gamepads@.take(i as int) == gamepads@);
        let rotate_digital = if keyboard.left {
            Turn::Left
        } else if keyboard.right {
            Turn::Right
        } else {
            Turn::Straight
        };
        SteeringCommand {
            thrust_digital: keyboard.thrust,
            thrust_analog: thrust,
            rotate_digital,
            rotate_analog: rotation,
        }
    }

    /// Analog thrust is past the deadzone; it burns whatever the tank holds.
    pub open spec fn analog_thrust(self) -> bool {
        self.thrust_analog@ > GAMEPAD_DEADZONE
    }

    /// Analog rotation is past the deadzone on either side: its magnitude
    /// exceeds the deadzone. Only then does it override the digital command.
    pub open spec fn analog_rotation(self) -> bool {
        magnitude(self.rotate_analog@) > GAMEPAD_DEADZONE
    }

    /// Whether the engine burns for this command with `fuel` in the tank.
    pub open spec fn thrusts(self, fuel: Fixed) -> bool {
        self.analog_thrust() || (fuel@ > 0 && self.thrust_digital)
    }

    /// How hard the engine burns: the analog thrust, or full thrust for the
    /// digital command.
    pub open spec fn thrust_level(self) -> Fixed {
        if self.analog_thrust() {
            self.thrust_analog
        } else {
            Fixed { raw: SCALE }
        }
    }

    /// The angular acceleration that the command asks for.
    pub open spec fn angular_accelleration(self) -> Fixed {
        if self.analog_rotation() {
            self.rotate_analog.negated().times(Fixed { raw: ANGULAR_ACCELLERATION })
        } else {
            match self.rotate_digital {
                Turn::Left => Fixed { raw: ANGULAR_ACCELLERATION },
                Turn::Right => Fixed { raw: (-ANGULAR_ACCELLERATION) as i64 },
                Turn::Straight => Fixed { raw: 0 },
            }
        }
    }
}

/// The ship after the command has been applied for `dt`.
///
/// While the engine burns, fuel drops by thrust level times `dt` and the
/// ship accelerates along its nose; otherwise the linear acceleration is
/// zero. The angular acceleration follows the rotation command. Position and
/// velocity are left alone.
pub open spec fn steered(
    player: Player,
    command: SteeringCommand,
    heading: Heading,
    dt: Fixed,
) -> Player {
    let burns = command.thrusts(player.fuel);
    let level = command.thrust_level();
    let lateral = Fixed { raw: LATERAL_ACCELLERATION };
    Player {
        fuel: if burns {
            if command.analog_thrust() {
                player.fuel.minus(level.times(dt))
            } else {
                player.fuel.minus(dt)
            }
        } else {
            player.fuel
        },
        is_thrusting: burns,
        body: Body {
            transform: player.body.transform,
            velocity: player.body.velocity,
            accelleration: crate::motion::Accelleration {
                x: if burns {
                    if command.analog_thrust() {
                        heading.sin.times(lateral).times(level)
                    } else {
                        heading.sin.times(lateral)
                    }
                } else {
                    Fixed { raw: 0 }
                },
                y: if burns {
                    if command.analog_thrust() {
                        heading.cos.times(lateral).times(level)
                    } else {
                        heading.cos.times(lateral)
                    }
                } else {
                    Fixed { raw: 0 }
                },
                r: command.angular_accelleration(),
            },
        },
    }
}

/// Apply a steering command to the ship for one tick.
pub fn steer(time: &Time, command: &SteeringCommand, heading: &Heading, player: &mut Player)
    ensures
        *final(player) == steered(*old(player), *command, *heading, time.delta_seconds()),
{
    let dt = time.delta_seconds();
    let lateral = Fixed { raw: LATERAL_ACCELLERATION };
    let angular = Fixed { raw: ANGULAR_ACCELLERATION };
    let mut accel = player.body.accelleration;
    if command.thrust_analog.raw > GAMEPAD_DEADZONE {
        player.is_thrusting = true;
        player.fuel = player.fuel.minus(command.thrust_analog.times(dt));
        accel.x = heading.sin.times(lateral).times(command.thrust_analog);
        accel.y = heading.cos.times(lateral).times(command.thrust_analog);
    } else if player.fuel.raw > 0 && command.thrust_digital {
        player.is_thrusting = true;
        player.fuel = player.fuel.minus(dt);
        accel.x = heading.sin.times(lateral);
        accel.y = heading.cos.times(lateral);
    } else {
        player.is_thrusting = false;
        accel.x = Fixed { raw: 0 };
        accel.y = Fixed { raw: 0 };
    }
    if command.rotate_analog.raw < -GAMEPAD_DEADZONE || command.rotate_analog.raw
        > GAMEPAD_DEADZONE {
        accel.r = command.rotate_analog.negated().times(angular);
    } else {
        accel.r =
        match command.rotate_digital {
            Turn::Left => angular,
            Turn::Right => Fixed { raw: -ANGULAR_ACCELLERATION },
            Turn::Straight => Fixed { raw: 0 },
        };
    }
    player.body.accelleration = accel;
}

/// Turn this tick's input into the ship's acceleration, thrust state and
/// fuel use.
pub fn do_player_movement(
    time: &Time,
    keyboard: &Keyboard,
    gamepads: &Vec<Gamepad>,
    heading: &Heading,
    player: &mut Player,
)
    ensures
        *final(player) == steered(
            *old(player),
            SteeringCommand::spec_read(*keyboard, gamepads@),
            *heading,
            time.delta_seconds(),
        ),
{
    let command = SteeringCommand::read(keyboard, gamepads);
    steer(time, &command, heading, player);
}

/// Where a coordinate that went past the edge is put back: one unit inside
/// the edge, on the side it left by.
pub open spec fn put_back(position: Fixed, limit: Fixed) -> Fixed {
    position.signum().times(limit.minus(Fixed { raw: SCALE }))
}

/// Whether a body at `body` has left a viewport on the horizontal axis.
pub open spec fn leaves_x(viewport: Viewport, body: Body) -> bool {
    beyond(body.transform.x, half(viewport.width))
}

/// Whether a body at `body` has left a viewport on the vertical axis.
pub open spec fn leaves_y(viewport: Viewport, body: Body) -> bool {
    beyond(body.transform.y, half(viewport.height))
}

/// Whether `after` is what an edge bounce in `viewport` can make of
/// `before`.
///
/// On each axis judged by itself: where the body has left the viewport, its
/// velocity is reversed and it is put back, else both are kept. Depth,
/// rotation and acceleration are kept. The spin is kept when neither axis
/// bounced, and otherwise is some spin from minus one full turn up to, not
/// including, one full turn.
pub open spec fn bounced(viewport: Viewport, before: Body, after: Body) -> bool {
    &&& after.transform.x == if leaves_x(viewport, before) {
        put_back(before.transform.x, half(viewport.width))
    } else {
        before.transform.x
    }
    &&& after.transform.y == if leaves_y(viewport, before) {
        put_back(before.transform.y, half(viewport.height))
    } else {
        before.transform.y
    }
    &&& after.velocity.x == if leaves_x(viewport, before) {
        before.velocity.x.negated()
    } else {
        before.velocity.x
    }
    &&& after.velocity.y == if leaves_y(viewport, before) {
        before.velocity.y.negated()
    } else {
        before.velocity.y
    }
    &&& after.transform.z == before.transform.z
    &&& after.transform.rotation == before.transform.rotation
    &&& after.accelleration == before.accelleration
    &&& if leaves_x(viewport, before) || leaves_y(viewport, before) {
        within(after.velocity.r, Fixed { raw: (-TWO_PI) as i64 }, Fixed { raw: TWO_PI })
    } else {
        after.velocity.r == before.velocity.r
    }
}

/// A coordinate that is put back lies one unit inside the edge, provided
/// the edge is at least one unit from the centre.
pub proof fn lemma_put_back_inside(position: Fixed, limit: Fixed)
    requires
        beyond(position, limit),
        limit@ >= SCALE,
    ensures
        magnitude(put_back(position, limit)@) == limit@ - SCALE,
        position@ > 0 ==> put_back(position, limit)@ >= 0,
        position@ < 0 ==> put_back(position, limit)@ <= 0,
{
    let inside = limit.minus(Fixed { raw: SCALE });
    assert(inside@ == limit@ - SCALE);
    let sign = position.signum();
    if position@ > 0 {
        assert(sign@ * inside@ == SCALE * inside@);
        lemma_scaled_quotient(inside@);
    } else {
        assert(position@ < 0);
        assert(sign@ * inside@ == SCALE * (-inside@)) by (nonlinear_arith)
            requires
                sign@ == -SCALE,
        ;
        lemma_scaled_quotient(-inside@);
    }
}

/// Reversing a velocity flips its sign.
pub proof fn lemma_negated_flips_sign(v: Fixed)
    ensures
        v.negated().signum()@ == -v.signum()@,
{
}

/// Keep the ship inside the viewport.
///
/// On each axis on which the ship has passed the edge, its velocity on that
/// axis is reversed and it is put back one unit inside the edge; the two
/// axes are judged independently. A bounce on either axis also gives the
/// ship a fresh spin, drawn from minus one full turn up to one full turn.
/// Where the edge is at least one unit from the centre, the ship ends up
/// inside it by that unit.
pub fn edge_bounce(viewport: &Viewport, body: &mut Body)
    ensures
        bounced(*viewport, *old(body), *final(body)),
        leaves_x(*viewport, *old(body)) && half(viewport.width)@ >= SCALE ==> {
            &&& magnitude(final(body).transform.x@) <= half(viewport.width)@ - SCALE
            &&& final(body).velocity.x.signum()@ == -old(body).velocity.x.signum()@
        },
        leaves_y(*viewport, *old(body)) && half(viewport.height)@ >= SCALE ==> {
            &&& magnitude(final(body).transform.y@) <= half(viewport.height)@ - SCALE
            &&& final(body).velocity.y.signum()@ == -old(body).velocity.y.signum()@
        },
{
    let one = Fixed { raw: SCALE };
    let width = half_of(viewport.width);
    let height = half_of(viewport.height);
    proof {
        lemma_negated_flips_sign(body.velocity.x);
        lemma_negated_flips_sign(body.velocity.y);
        if beyond(body.transform.x, width) && width@ >= SCALE {
            lemma_put_back_inside(body.transform.x, width);
        }
        if beyond(body.transform.y, height) && height@ >= SCALE {
            lemma_put_back_inside(body.transform.y, height);
        }
    }
    if is_beyond(body.transform.x, width) {
        body.velocity.x = body.velocity.x.negated();
        body.velocity.r = uniform(Fixed { raw: -TWO_PI }, Fixed { raw: TWO_PI });
        body.transform.x = body.transform.x.signum().times(width.minus(one));
    }
    if is_beyond(body.transform.y, height) {
        body.velocity.y = body.velocity.y.negated();
        body.velocity.r = uniform(Fixed { raw: -TWO_PI }, Fixed { raw: TWO_PI });
        body.transform.y = body.transform.y.signum().times(height.minus(one));
    }
}

/// The sprite that shows the ship's thrust state.
pub fn player_sprite(player: &Player) -> (index: usize)
    ensures
        index == if player.is_thrusting {
            SPRITE_INDEX_THRUSTING
        } else {
            SPRITE_INDEX_IDLE
        },
{
    if player.is_thrusting {
        SPRITE_INDEX_THRUSTING
    } else {
        SPRITE_INDEX_IDLE
    }
}

} // verus!
