use asteroids_core::fixed::Fixed;
use asteroids_core::frame::Time;
use asteroids_core::frame::Viewport;
use asteroids_core::motion::Accelleration;
use asteroids_core::motion::Body;
use asteroids_core::motion::Transform;
use asteroids_core::motion::Velocity;
use asteroids_core::motion::TWO_PI;
use asteroids_core::player::do_player_movement;
use asteroids_core::player::edge_bounce;
use asteroids_core::player::init_player;
use asteroids_core::player::player_sprite;
use asteroids_core::player::steer;
use asteroids_core::player::Gamepad;
use asteroids_core::player::Heading;
use asteroids_core::player::Keyboard;
use asteroids_core::player::Player;
use asteroids_core::player::SteeringCommand;
use asteroids_core::player::Turn;
use asteroids_core::player::ANGULAR_ACCELLERATION;
use asteroids_core::player::SPRITE_INDEX_IDLE;
use asteroids_core::player::SPRITE_INDEX_THRUSTING;

fn fx(v: f64) -> Fixed {
    Fixed::from_raw((v * 1e6).round() as i64)
}

fn no_keys() -> Keyboard {
    Keyboard { thrust: false, left: false, right: false }
}

fn no_pad() -> Gamepad {
    Gamepad {
        dpad_up: false,
        dpad_left: false,
        dpad_right: false,
        left_stick_x: None,
        left_stick_y: None,
        right_trigger: None,
    }
}

fn nose_up() -> Heading {
    Heading { sin: fx(0.0), cos: fx(1.0) }
}

fn ship_with_fuel(fuel: f64) -> Player {
    let mut p = init_player();
    p.fuel = fx(fuel);
    p
}

#[test]
fn the_ship_starts_with_a_full_tank_at_the_centre() {
    let p = init_player();
    assert_eq!(p.fuel, fx(60.0));
    assert!(!p.is_thrusting);
    assert_eq!(p.body, Body::at_depth(fx(100.0)));
    let d = Player::default();
    assert_eq!(d.fuel, fx(60.0));
    assert_eq!(d.body, Body::at_depth(fx(0.0)));
}

#[test]
fn idle_ship_does_not_accelerate() {
    let mut p = init_player();
    do_player_movement(&Time::new(1_000_000), &no_keys(), &vec![], &nose_up(), &mut p);
    assert_eq!(p, init_player());
    assert_eq!(p.body.accelleration, Accelleration::default());
}

#[test]
fn digital_thrust_burns_one_unit_of_fuel_per_second() {
    let mut p = ship_with_fuel(5.0);
    let keys = Keyboard { thrust: true, left: false, right: false };
    do_player_movement(&Time::new(1_000_000), &keys, &vec![], &nose_up(), &mut p);
    assert_eq!(p.fuel, fx(4.0));
    assert!(p.is_thrusting);
    assert_eq!(p.body.accelleration.x, fx(0.0));
    assert_eq!(p.body.accelleration.y, fx(50.0));
}

#[test]
fn digital_thrust_needs_fuel() {
    let keys = Keyboard { thrust: true, left: false, right: false };
    for fuel in [0.0, -0.5] {
        let mut p = ship_with_fuel(fuel);
        p.is_thrusting = true;
        p.body.accelleration = Accelleration { x: fx(3.0), y: fx(4.0), r: fx(0.0) };
        do_player_movement(&Time::new(1_000_000), &keys, &vec![], &nose_up(), &mut p);
        assert!(!p.is_thrusting);
        assert_eq!(p.fuel, fx(fuel));
        assert_eq!(p.body.accelleration, Accelleration::default());
    }
}

#[test]
fn digital_thrust_may_take_fuel_below_zero() {
    let mut p = ship_with_fuel(0.25);
    let keys = Keyboard { thrust: true, left: false, right: false };
    do_player_movement(&Time::new(1_000_000), &keys, &vec![], &nose_up(), &mut p);
    assert_eq!(p.fuel, fx(-0.75));
    assert!(p.is_thrusting);
}

#[test]
fn thrust_follows_the_heading() {
    let mut p = ship_with_fuel(5.0);
    let keys = Keyboard { thrust: true, left: false, right: false };
    let heading = Heading { sin: fx(-0.6), cos: fx(0.8) };
    do_player_movement(&Time::new(500_000), &keys, &vec![], &heading, &mut p);
    assert_eq!(p.fuel, fx(4.5));
    assert_eq!(p.body.accelleration.x, fx(-30.0));
    assert_eq!(p.body.accelleration.y, fx(40.0));
}

#[test]
fn analog_thrust_scales_burn_and_acceleration() {
    let mut p = ship_with_fuel(5.0);
    let mut pad = no_pad();
    pad.right_trigger = Some(fx(0.5));
    do_player_movement(&Time::new(2_000_000), &no_keys(), &vec![pad], &nose_up(), &mut p);
    assert!(p.is_thrusting);
    assert_eq!(p.fuel, fx(4.0));
    assert_eq!(p.body.accelleration.y, fx(25.0));
}

#[test]
fn analog_thrust_ignores_an_empty_tank() {
    let mut p = ship_with_fuel(0.0);
    let mut pad = no_pad();
    pad.dpad_up = true;
    do_player_movement(&Time::new(1_000_000), &no_keys(), &vec![pad], &nose_up(), &mut p);
    assert!(p.is_thrusting);
    assert_eq!(p.fuel, fx(-1.0));
    assert_eq!(p.body.accelleration.y, fx(50.0));
}

#[test]
fn analog_thrust_within_the_deadzone_is_ignored() {
    let mut p = ship_with_fuel(5.0);
    let mut pad = no_pad();
    pad.left_stick_y = Some(fx(0.1));
    do_player_movement(&Time::new(1_000_000), &no_keys(), &vec![pad], &nose_up(), &mut p);
    assert!(!p.is_thrusting);
    assert_eq!(p.fuel, fx(5.0));
    pad.left_stick_y = Some(Fixed::from_raw(100_001));
    do_player_movement(&Time::new(1_000_000), &no_keys(), &vec![pad], &nose_up(), &mut p);
    assert!(p.is_thrusting);
}

#[test]
fn gamepads_are_folded_by_magnitude() {
    let mut first = no_pad();
    first.left_stick_y = Some(fx(-0.8));
    first.left_stick_x = Some(fx(-0.3));
    let mut second = no_pad();
    second.right_trigger = Some(fx(0.4));
    second.dpad_left = true;
    let cmd = SteeringCommand::read(&no_keys(), &vec![first, second]);
    // The first pad's negative stick is cut to zero before the second is heard.
    assert_eq!(cmd.thrust_analog, fx(0.4));
    assert_eq!(cmd.rotate_analog, fx(-1.0));
    assert!(!cmd.thrust_digital);
    assert_eq!(cmd.rotate_digital, Turn::Straight);

    let cmd = SteeringCommand::read(&no_keys(), &vec![second, first]);
    // Here the stick wins by magnitude and the result is cut to zero.
    assert_eq!(cmd.thrust_analog, fx(0.0));
    assert_eq!(cmd.rotate_analog, fx(-1.0));
}

#[test]
fn pad_right_wins_over_pad_left() {
    let mut pad = no_pad();
    pad.dpad_left = true;
    pad.dpad_right = true;
    let cmd = SteeringCommand::read(&no_keys(), &vec![pad]);
    assert_eq!(cmd.rotate_analog, fx(1.0));
}

#[test]
fn keyboard_left_wins_over_right() {
    let keys = Keyboard { thrust: false, left: true, right: true };
    let cmd = SteeringCommand::read(&keys, &vec![]);
    assert_eq!(cmd.rotate_digital, Turn::Left);
    let keys = Keyboard { thrust: true, left: false, right: true };
    let cmd = SteeringCommand::read(&keys, &vec![]);
    assert_eq!(cmd.rotate_digital, Turn::Right);
    assert!(cmd.thrust_digital);
}

#[test]
fn rotation_commands_set_angular_acceleration() {
    let time = Time::new(1_000_000);
    let mut cmd = SteeringCommand {
        thrust_digital: false,
        thrust_analog: fx(0.0),
        rotate_digital: Turn::Left,
        rotate_analog: fx(0.0),
    };
    let mut p = init_player();
    steer(&time, &cmd, &nose_up(), &mut p);
    assert_eq!(p.body.accelleration.r.raw, ANGULAR_ACCELLERATION);
    cmd.rotate_digital = Turn::Right;
    steer(&time, &cmd, &nose_up(), &mut p);
    assert_eq!(p.body.accelleration.r.raw, -ANGULAR_ACCELLERATION);
    cmd.rotate_digital = Turn::Straight;
    steer(&time, &cmd, &nose_up(), &mut p);
    assert_eq!(p.body.accelleration.r.raw, 0);
}

#[test]
fn analog_rotation_overrides_digital_outside_the_deadzone() {
    let time = Time::new(1_000_000);
    let mut cmd = SteeringCommand {
        thrust_digital: false,
        thrust_analog: fx(0.0),
        rotate_digital: Turn::Left,
        rotate_analog: fx(0.5),
    };
    let mut p = init_player();
    steer(&time, &cmd, &nose_up(), &mut p);
    assert_eq!(p.body.accelleration.r.raw, -392_699);
    // The deadzone holds both of its bounds: there the keys decide.
    cmd.rotate_analog = fx(0.1);
    steer(&time, &cmd, &nose_up(), &mut p);
    assert_eq!(p.body.accelleration.r.raw, 785_398);
    assert_eq!(p.body.accelleration.r.raw, ANGULAR_ACCELLERATION);
    cmd.rotate_analog = fx(-0.1);
    steer(&time, &cmd, &nose_up(), &mut p);
    assert_eq!(p.body.accelleration.r.raw, ANGULAR_ACCELLERATION);
    cmd.rotate_analog = Fixed::from_raw(100_001);
    steer(&time, &cmd, &nose_up(), &mut p);
    assert_eq!(p.body.accelleration.r.raw, -78_540);
    cmd.rotate_analog = Fixed::from_raw(-100_001);
    steer(&time, &cmd, &nose_up(), &mut p);
    assert_eq!(p.body.accelleration.r.raw, 78_540);
}

#[test]
fn analog_rotation_at_the_deadzone_leaves_every_digital_command_in_force() {
    let time = Time::new(1_000_000);
    for analog in [0.1, -0.1, 0.0, 0.05] {
        for (turn, expected) in [
            (Turn::Left, ANGULAR_ACCELLERATION),
            (Turn::Right, -ANGULAR_ACCELLERATION),
            (Turn::Straight, 0),
        ] {
            let cmd = SteeringCommand {
                thrust_digital: true,
                thrust_analog: fx(0.0),
                rotate_digital: turn,
                rotate_analog: fx(analog),
            };
            let mut p = init_player();
            steer(&time, &cmd, &nose_up(), &mut p);
            assert_eq!(p.body.accelleration.r.raw, expected);
        }
    }
}

#[test]
fn sprite_shows_thrust_state() {
    let mut p = init_player();
    assert_eq!(player_sprite(&p), SPRITE_INDEX_IDLE);
    assert_eq!(player_sprite(&p), 0);
    p.is_thrusting = true;
    assert_eq!(player_sprite(&p), SPRITE_INDEX_THRUSTING);
    assert_eq!(player_sprite(&p), 1);
}

fn ship_body(x: f64, y: f64, vx: f64, vy: f64, vr: f64) -> Body {
    Body {
        transform: Transform { x: fx(x), y: fx(y), z: fx(100.0), rotation: fx(0.3) },
        velocity: Velocity { x: fx(vx), y: fx(vy), r: fx(vr) },
        accelleration: Accelleration { x: fx(1.0), y: fx(2.0), r: fx(3.0) },
    }
}

#[test]
fn no_bounce_inside_the_viewport() {
    let viewport = Viewport { width: fx(800.0), height: fx(600.0) };
    for (x, y) in [(0.0, 0.0), (400.0, 300.0), (-400.0, -300.0), (399.0, -12.0)] {
        let mut b = ship_body(x, y, 5.0, -6.0, 0.7);
        let before = b;
        edge_bounce(&viewport, &mut b);
        assert_eq!(b, before);
    }
}

#[test]
fn bounce_off_the_right_edge() {
    let viewport = Viewport { width: fx(800.0), height: fx(600.0) };
    let mut b = ship_body(400.5, 10.0, 5.0, -6.0, 0.7);
    edge_bounce(&viewport, &mut b);
    assert_eq!(b.transform.x, fx(399.0));
    assert_eq!(b.transform.y, fx(10.0));
    assert_eq!(b.velocity.x, fx(-5.0));
    assert_eq!(b.velocity.y, fx(-6.0));
    assert!(b.velocity.r.raw >= -TWO_PI && b.velocity.r.raw < TWO_PI);
    assert_eq!(b.transform.z, fx(100.0));
    assert_eq!(b.transform.rotation, fx(0.3));
    assert_eq!(b.accelleration, ship_body(0.0, 0.0, 0.0, 0.0, 0.0).accelleration);
}

#[test]
fn bounce_off_two_edges_at_once() {
    let viewport = Viewport { width: fx(800.0), height: fx(600.0) };
    let mut b = ship_body(-450.0, 1000.0, -5.0, 6.0, 0.7);
    edge_bounce(&viewport, &mut b);
    assert_eq!(b.transform.x, fx(-399.0));
    assert_eq!(b.transform.y, fx(299.0));
    assert_eq!(b.velocity.x, fx(5.0));
    assert_eq!(b.velocity.y, fx(-6.0));
    assert!(b.velocity.r.raw >= -TWO_PI && b.velocity.r.raw < TWO_PI);
}

#[test]
fn bounce_respins_the_ship() {
    let viewport = Viewport { width: fx(800.0), height: fx(600.0) };
    let mut spins = Vec::new();
    for _ in 0..32 {
        let mut b = ship_body(500.0, 0.0, 5.0, 0.0, 0.7);
        edge_bounce(&viewport, &mut b);
        spins.push(b.velocity.r.raw);
    }
    assert!(spins.iter().any(|r| *r != spins[0]));
    assert!(spins.iter().any(|r| *r != -TWO_PI));
}

#[test]
fn bounce_in_a_viewport_of_no_size() {
    let viewport = Viewport { width: fx(0.0), height: fx(0.0) };
    let mut b = ship_body(2.0, 0.0, 5.0, 6.0, 0.7);
    edge_bounce(&viewport, &mut b);
    // The edge is at the centre: the ship is put one unit on the other side.
    assert_eq!(b.transform.x, fx(-1.0));
    assert_eq!(b.velocity.x, fx(-5.0));
    assert_eq!(b.transform.y, fx(0.0));
    assert_eq!(b.velocity.y, fx(6.0));
}
