use asteroids_core::fixed::Fixed;
use asteroids_core::frame::Time;
use asteroids_core::frame::Viewport;
use asteroids_core::fuel::fuel_collision;
use asteroids_core::fuel::generate_fuel;
use asteroids_core::fuel::is_within_reach;
use asteroids_core::fuel::remove_stray_fuel;
use asteroids_core::fuel::FuelCan;
use asteroids_core::fuel::FuelTimer;
use asteroids_core::fuel::FUEL_CAN_SCALE;
use asteroids_core::fuel::FUEL_INTERVAL_MICROS;
use asteroids_core::fuel::FUEL_PER_CAN;
use asteroids_core::motion::Accelleration;
use asteroids_core::motion::Body;
use asteroids_core::motion::PI;
use asteroids_core::player::init_player;

fn fx(v: f64) -> Fixed {
    Fixed::from_raw((v * 1e6).round() as i64)
}

fn viewport() -> Viewport {
    Viewport { width: fx(800.0), height: fx(600.0) }
}

fn can_at(x: f64, y: f64) -> FuelCan {
    let mut c = FuelCan { body: Body::at_depth(fx(90.0)) };
    c.body.transform.x = fx(x);
    c.body.transform.y = fx(y);
    c
}

#[test]
fn fuel_constants() {
    assert_eq!(FUEL_INTERVAL_MICROS, 5_000_000);
    assert_eq!(FUEL_PER_CAN, 10_000_000);
    assert_eq!(FUEL_CAN_SCALE, 1_500_000);
    let t = FuelTimer::default();
    assert_eq!(t.0.period_micros(), 5_000_000);
    assert_eq!(t.0.elapsed_micros(), 0);
}

#[test]
fn a_can_is_released_every_five_seconds() {
    let v = viewport();
    let mut timer = FuelTimer::default();
    let mut cans = Vec::new();
    for tick in 1..=20 {
        generate_fuel(&Time::new(1_000_000), &mut timer, &v, &mut cans);
        assert_eq!(cans.len(), tick / 5);
    }
    for can in &cans {
        let t = can.body.transform;
        assert_eq!(t.z, fx(90.0));
        assert_eq!(t.rotation, fx(0.0));
        assert!(t.x.raw == 0 || t.x.raw.abs() >= 266_666_666);
        assert!(t.x.raw.abs() < 666_666_667);
        assert!(t.y.raw == 0 || t.y.raw.abs() >= 200_000_000);
        assert!(t.y.raw.abs() < 500_000_000);
        let vel = can.body.velocity;
        assert!(vel.x.raw >= -100_000_000 && vel.x.raw < 100_000_000);
        assert!(vel.y.raw >= -100_000_000 && vel.y.raw < 100_000_000);
        assert!(vel.r.raw >= -PI && vel.r.raw < PI);
        assert_eq!(can.body.accelleration, Accelleration::default());
    }
}

#[test]
fn a_long_tick_releases_one_can_only() {
    let v = viewport();
    let mut timer = FuelTimer::default();
    let mut cans = vec![can_at(1.0, 1.0)];
    generate_fuel(&Time::new(17_000_000), &mut timer, &v, &mut cans);
    assert_eq!(cans.len(), 2);
    assert_eq!(cans[0], can_at(1.0, 1.0));
    assert_eq!(timer.0.elapsed_micros(), 2_000_000);
}

#[test]
fn no_can_without_room_to_place_it() {
    let v = Viewport { width: fx(0.0), height: fx(600.0) };
    let mut timer = FuelTimer::default();
    let mut cans = Vec::new();
    generate_fuel(&Time::new(5_000_000), &mut timer, &v, &mut cans);
    assert_eq!(cans.len(), 0);
    assert_eq!(timer.0.elapsed_micros(), 0);
}

#[test]
fn reach_is_a_box_of_thirty_two_units() {
    let ship = init_player().body.transform;
    assert!(is_within_reach(&can_at(0.0, 0.0).body.transform, &ship));
    assert!(is_within_reach(&can_at(32.0, -32.0).body.transform, &ship));
    assert!(!is_within_reach(&can_at(32.000001, 0.0).body.transform, &ship));
    assert!(!is_within_reach(&can_at(0.0, -32.000001).body.transform, &ship));
    let mut deep = can_at(0.0, 0.0);
    deep.body.transform.z = fx(67.999999);
    assert!(!is_within_reach(&deep.body.transform, &ship));
    deep.body.transform.z = fx(132.0);
    assert!(is_within_reach(&deep.body.transform, &ship));
}

#[test]
fn cans_within_reach_are_picked_up() {
    let mut player = init_player();
    player.fuel = fx(5.0);
    player.body.transform.x = fx(100.0);
    player.body.transform.y = fx(-50.0);
    let before = player;
    let mut cans = vec![
        can_at(100.0, -50.0),
        can_at(400.0, 0.0),
        can_at(131.0, -80.0),
        can_at(100.0, -83.0),
        can_at(69.0, -19.0),
    ];
    fuel_collision(&mut player, &mut cans);
    assert_eq!(cans, vec![can_at(400.0, 0.0), can_at(100.0, -83.0)]);
    assert_eq!(player.fuel, fx(35.0));
    assert_eq!(player.body, before.body);
    assert_eq!(player.is_thrusting, before.is_thrusting);
}

#[test]
fn pickup_may_fill_the_tank_past_its_start() {
    let mut player = init_player();
    let mut cans = vec![can_at(0.0, 0.0)];
    fuel_collision(&mut player, &mut cans);
    assert_eq!(player.fuel, fx(70.0));
    assert!(cans.is_empty());
}

#[test]
fn pickup_with_nothing_in_reach_changes_nothing() {
    let mut player = init_player();
    let mut cans = vec![can_at(300.0, 0.0), can_at(0.0, 33.0)];
    fuel_collision(&mut player, &mut cans);
    assert_eq!(player, init_player());
    assert_eq!(cans, vec![can_at(300.0, 0.0), can_at(0.0, 33.0)]);
    let mut none: Vec<FuelCan> = Vec::new();
    fuel_collision(&mut player, &mut none);
    assert_eq!(player, init_player());
}

#[test]
fn a_full_tank_stays_at_the_greatest_amount() {
    let mut player = init_player();
    player.fuel = Fixed::from_raw(i64::MAX - 15_000_000);
    let mut cans = vec![can_at(0.0, 0.0), can_at(1.0, 1.0), can_at(2.0, 2.0)];
    fuel_collision(&mut player, &mut cans);
    assert_eq!(player.fuel.raw, i64::MAX);
}

#[test]
fn stray_cans_are_removed_in_order() {
    let v = viewport();
    let mut cans = vec![
        can_at(801.0, 0.0),
        can_at(0.0, 0.0),
        can_at(0.0, 600.5),
        can_at(-800.0, 600.0),
    ];
    remove_stray_fuel(&v, &mut cans);
    assert_eq!(cans, vec![can_at(0.0, 0.0), can_at(-800.0, 600.0)]);
}
