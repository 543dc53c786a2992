use asteroids_core::fixed::Fixed;
use asteroids_core::frame::Time;
use asteroids_core::frame::Viewport;
use asteroids_core::motion::Accelleration;
use asteroids_core::motion::Body;
use asteroids_core::motion::Velocity;
use asteroids_core::player::Gamepad;
use asteroids_core::player::Heading;
use asteroids_core::player::Keyboard;
use asteroids_core::world::World;

fn fx(v: f64) -> Fixed {
    Fixed::from_raw((v * 1e6).round() as i64)
}

fn viewport() -> Viewport {
    Viewport { width: fx(800.0), height: fx(600.0) }
}

fn no_keys() -> Keyboard {
    Keyboard { thrust: false, left: false, right: false }
}

fn nose_up() -> Heading {
    Heading { sin: fx(0.0), cos: fx(1.0) }
}

#[test]
fn a_new_world() {
    let world = World::new(&viewport());
    assert_eq!(world.player().fuel, fx(60.0));
    assert!(!world.player().is_thrusting);
    assert_eq!(world.player().body, Body::at_depth(fx(100.0)));
    assert_eq!(world.asteroids().len(), 25);
    assert_eq!(world.fuel_cans().len(), 0);
    assert_eq!(world.score().points(), 0);
    assert_eq!(world.fuel_timer().0.elapsed_micros(), 0);
}

#[test]
fn an_idle_ship_stays_put_for_a_second() {
    let v = viewport();
    let pads: Vec<Gamepad> = Vec::new();
    let world = World::new(&v);
    let world = world.step(&Time::new(1_000_000), &v, &no_keys(), &pads, &nose_up());
    let p = world.player();
    assert_eq!(p.body.accelleration, Accelleration::default());
    assert_eq!(p.body.velocity, Velocity::default());
    assert_eq!((p.body.transform.x.raw, p.body.transform.y.raw), (0, 0));
    assert!(!p.is_thrusting);
    assert_eq!(world.score().points(), 2);
}

#[test]
fn the_world_counts_time_and_keeps_the_cap() {
    let v = viewport();
    let pads: Vec<Gamepad> = Vec::new();
    let mut world = World::new(&v);
    for _ in 0..600 {
        world = world.step(&Time::new(16_667), &v, &no_keys(), &pads, &nose_up());
        assert!(world.asteroids().len() <= 100);
    }
    // 600 ticks of 16667 microseconds are 10.0002 seconds.
    assert_eq!(world.score().points(), 20);
    assert_eq!(world.fuel_timer().0.elapsed_micros(), 200);
    assert!(world.fuel_cans().len() <= 2);
    assert!(world.player().fuel.raw >= 60_000_000);
}

#[test]
fn thrust_moves_the_ship_within_one_tick() {
    let v = viewport();
    let pads: Vec<Gamepad> = Vec::new();
    let keys = Keyboard { thrust: true, left: true, right: false };
    let world = World::new(&v);
    let world = world.step(&Time::new(1_000_000), &v, &keys, &pads, &nose_up());
    let p = world.player();
    assert!(p.is_thrusting);
    assert_eq!(p.body.accelleration, Accelleration { x: fx(0.0), y: fx(50.0), r: fx(0.785398) });
    // vy: 50, less drag 50*50*0.001 = 2.5
    assert_eq!(p.body.velocity.y, fx(47.5));
    assert_eq!(p.body.transform.y, fx(47.5));
    assert_eq!(p.body.velocity.x, fx(0.0));
    // vr: 0.785398, less drag 0.785398^2 * 0.196350 rounded toward zero in steps
    assert_eq!(p.body.velocity.r.raw, 785_398 - 121_118);
    assert_eq!(p.body.transform.rotation.raw, 785_398 - 121_118);
    // No can is afloat yet, so the burn is all that changes the tank.
    assert_eq!(p.fuel, fx(59.0));
}

#[test]
fn a_world_of_no_size_has_no_asteroids() {
    let v = Viewport { width: fx(0.0), height: fx(0.0) };
    let pads: Vec<Gamepad> = Vec::new();
    let mut world = World::new(&v);
    assert_eq!(world.asteroids().len(), 0);
    for _ in 0..12 {
        world = world.step(&Time::new(1_000_000), &v, &no_keys(), &pads, &nose_up());
    }
    assert_eq!(world.asteroids().len(), 0);
    assert_eq!(world.fuel_cans().len(), 0);
    assert_eq!(world.score().points(), 24);
}
