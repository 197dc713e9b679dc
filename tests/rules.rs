use save_the_pink_skins::collision::find_collisions;
use save_the_pink_skins::lifetime::{age_all, decay_all};
use save_the_pink_skins::physics::{integrate, steer, wrap_axis};
use save_the_pink_skins::resolve::{radius_to_earth_damage, radius_to_ship_damage, resolve_pair, resolve_with};
use save_the_pink_skins::state::{health_points, population_readout, progress_difficulty_factor, progress_percent};
use save_the_pink_skins::world::isqrt;
use save_the_pink_skins::{
    Blueprint, Collision, Color, Controls, Direction, Draws, EntityStore, Event, GameState, Kind, Outcome, Shape,
    StoreError, Transform, WarningClock,
};

fn paint() -> Color {
    Color { r: 1, g: 2, b: 3, a: 4 }
}

fn circle(kind: Kind, x: i64, y: i64, radius: i64) -> Blueprint {
    Blueprint {
        transform: Transform { pos_x: x, pos_y: y, vel_x: 0, vel_y: 0, acc_x: 0, acc_y: 0 },
        kind,
        shape: Shape::Circle { radius, color: paint() },
        ttl: if kind == Kind::Projectile { Some(50) } else { None },
        collidable: true,
    }
}

fn no_draws() -> Draws {
    Draws { ratio: 0, v1x: 0, v1y: 0, v2x: 0, v2y: 0 }
}

#[test]
fn wrap_is_idempotent() {
    let once = wrap_axis(1_200_000, 10_000);
    assert_eq!(once, -10_000);
    assert_eq!(wrap_axis(once, 10_000), once);
    let low = wrap_axis(-20_000, 10_000);
    assert_eq!(low, 1_010_000);
    assert_eq!(wrap_axis(low, 10_000), low);
    // inside the margin: untouched
    assert_eq!(wrap_axis(1_010_999, 10_000), 1_010_999);
    assert_eq!(wrap_axis(1_011_001, 10_000), -10_000);
}

#[test]
fn integration_adds_acceleration_then_velocity() {
    let mut b = circle(Kind::Ship, 500_000, 500_000, 10_000);
    b.transform.vel_x = 100;
    b.transform.acc_x = 7;
    b.transform.vel_y = -30;
    let r = integrate(b);
    assert_eq!(r.transform.vel_x, 107);
    assert_eq!(r.transform.pos_x, 500_107);
    assert_eq!(r.transform.vel_y, -30);
    assert_eq!(r.transform.pos_y, 499_970);
}

#[test]
fn steering_nudges_relaxes_and_clamps() {
    let t = Transform { pos_x: 0, pos_y: 0, vel_x: 9_000, vel_y: -9_000, acc_x: 45, acc_y: 25 };
    let c = Controls { left_right: Some(Direction::Right), up_down: None, shooting: false };
    let r = steer(t, c);
    assert_eq!(r.acc_x, 50);
    assert_eq!(r.acc_y, 15);
    assert_eq!(r.vel_x, 5_000);
    assert_eq!(r.vel_y, -5_000);
    let r = steer(Transform { acc_x: 5, acc_y: -5, ..t }, Controls::new());
    assert_eq!(r.acc_x, 0);
    assert_eq!(r.acc_y, 0);
}

#[test]
fn controls_press_and_release() {
    let mut c = Controls::new();
    c.press(Direction::Left);
    c.press(Direction::Up);
    assert_eq!(c.left_right, Some(Direction::Left));
    assert_eq!(c.up_down, Some(Direction::Up));
    c.press(Direction::Right);
    c.release(Direction::Left);
    assert_eq!(c.left_right, Some(Direction::Right));
    c.release(Direction::Right);
    c.release(Direction::Up);
    assert_eq!(c, Controls::new());
}

#[test]
fn damage_formulas() {
    assert_eq!(radius_to_earth_damage(20_000), 5_200_000_000);
    assert_eq!(radius_to_ship_damage(10_000), 2_600_000_000);
    assert_eq!(radius_to_earth_damage(0), 0);
}

#[test]
fn damage_grows_with_radius() {
    for r in [1i64, 2, 999, 1_000, 7_000, 15_000, 999_999] {
        assert!(radius_to_earth_damage(r) < radius_to_earth_damage(r + 1));
        assert!(radius_to_ship_damage(r) < radius_to_ship_damage(r + 1));
    }
}

#[test]
fn store_lookup_and_removal() {
    let mut s = EntityStore::new();
    let a = s.create(circle(Kind::Ship, 0, 0, 10)).unwrap();
    let b = s.create(circle(Kind::Planet, 0, 0, 10)).unwrap();
    assert_eq!((a, b), (1, 2));
    s.craft = Some(a);
    s.planet = Some(b);
    assert_eq!(s.get(a).unwrap().body.kind, Kind::Ship);
    s.remove(a);
    assert_eq!(s.get(a), Err(StoreError::NotFound));
    assert_eq!(s.craft, None);
    assert_eq!(s.planet, Some(b));
    let c = s.create(circle(Kind::Meteor, 0, 0, 10)).unwrap();
    assert_eq!(c, 3, "identifiers are never reused");
    s.remove_all(&vec![b, b, c, 99]);
    assert_eq!(s.entities.len(), 0);
    assert_eq!(s.planet, None);
}

#[test]
fn collisions_found_once_per_pair() {
    let mut s = EntityStore::new();
    let a = s.create(circle(Kind::Meteor, 100_000, 100_000, 10_000)).unwrap();
    let b = s.create(circle(Kind::Meteor, 120_000, 100_000, 10_000)).unwrap();
    let c = s.create(circle(Kind::Meteor, 120_001, 100_000, 10_000)).unwrap();
    let mut far = circle(Kind::UI, 100_000, 100_000, 50_000);
    far.collidable = false;
    s.create(far).unwrap();
    let found = find_collisions(&s);
    // a-b touch exactly (distance = sum of radii); a-c are one unit apart
    assert_eq!(found, vec![Collision { first: a, second: b }, Collision { first: b, second: c }]);
}

#[test]
fn ship_touching_planet_takes_contact_damage() {
    let ship = circle(Kind::Ship, 0, 0, 10);
    let planet = circle(Kind::Planet, 0, 0, 10);
    let e = resolve_pair(&planet, &ship, &no_draws(), 1_000, 13_000);
    assert_eq!(e.ship_damage, 100_000_000_000);
    assert!(!e.destroy_first && !e.destroy_second);
}

#[test]
fn meteor_on_planet_kills_and_shows_readout() {
    let planet = circle(Kind::Planet, 500_000, 500_000, 100_000);
    let meteor = circle(Kind::Meteor, 450_000, 500_000, 10_000);
    let e = resolve_pair(&planet, &meteor, &no_draws(), 1_000_000_000, 13_000);
    assert_eq!(e.population_damage, 1_300_000_000);
    assert!(!e.destroy_first && e.destroy_second);
    assert_eq!(e.event, Some(Event::PlanetHit));
    let text = e.text.unwrap();
    assert_eq!(text.ttl, Some(300));
    assert_eq!(text.transform.pos_x, 350_000);
    assert_eq!(text.transform.pos_y, 487_000);
    assert!(matches!(text.shape, Shape::Text { label: save_the_pink_skins::Label::Impact(1_000_000_000), .. }));
    // an empty planet shows nothing
    let e = resolve_pair(&meteor, &planet, &no_draws(), 0, 13_000);
    assert!(e.text.is_none());
    assert!(e.destroy_first);
}

#[test]
fn projectile_splits_meteor() {
    let mut meteor = circle(Kind::Meteor, 500_000, 200_000, 10_000);
    meteor.transform.vel_x = 600;
    meteor.transform.vel_y = -400;
    let shot = circle(Kind::Projectile, 500_000, 200_000, 1_000);
    let d = Draws { ratio: 300_000, v1x: -1_500, v1y: 700, v2x: 0, v2y: 0 };
    let e = resolve_pair(&shot, &meteor, &d, 0, 13_000);
    assert!(e.destroy_first && e.destroy_second);
    let child = e.meteor1.unwrap();
    assert_eq!(child.shape, Shape::Circle { radius: 3_000, color: Color { r: 224, g: 154, b: 72, a: 255 } });
    // speeds capped at 1000, with the sign of the other axis' draw
    assert_eq!(child.transform.vel_x, 1_000);
    assert_eq!(child.transform.vel_y, -700);
    assert_eq!(e.event, Some(Event::MeteorExploded));
    // a child too small is not spawned
    let tiny = Draws { ratio: 100_000, ..d };
    assert!(resolve_pair(&shot, &meteor, &tiny, 0, 13_000).meteor1.is_none());
    // too close to the border: not spawned
    let edge = Blueprint { transform: Transform { pos_x: 990_000, ..meteor.transform }, ..meteor };
    assert!(resolve_pair(&edge, &shot, &d, 0, 13_000).meteor1.is_none());
}

#[test]
fn two_meteors_make_two_children() {
    let a = circle(Kind::Meteor, 500, 300_000, 10_000);
    let b = circle(Kind::Meteor, 300_000, 300_000, 10_000);
    let d = Draws { ratio: 0, v1x: 10, v1y: 20, v2x: -30, v2y: 40 };
    let e = resolve_pair(&a, &b, &d, 0, 13_000);
    // the first is at the border, so only the second child spawns
    assert!(e.meteor1.is_none());
    let second = e.meteor2.unwrap();
    assert_eq!(second.shape, Shape::Circle { radius: 7_000, color: Color { r: 224, g: 154, b: 72, a: 255 } });
    assert_eq!(second.transform.vel_x, 30);
    assert_eq!(second.transform.vel_y, -40);
    assert_eq!(e.event, Some(Event::MeteorBounce));
}

#[test]
fn destroyed_once_however_often_hit() {
    let mut s = EntityStore::new();
    let m = s.create(circle(Kind::Meteor, 500_000, 200_000, 10_000)).unwrap();
    let p1 = s.create(circle(Kind::Projectile, 500_000, 200_000, 1_000)).unwrap();
    let p2 = s.create(circle(Kind::Projectile, 500_500, 200_000, 1_000)).unwrap();
    let cs = find_collisions(&s);
    assert_eq!(cs.len(), 3);
    let ds = vec![Draws { ratio: 200_000, v1x: 0, v1y: 0, v2x: 0, v2y: 0 }; 3];
    let r = resolve_with(&s, &cs, &ds, 0, 13_000);
    let mut d = r.destroyed.clone();
    d.sort();
    assert_eq!(d, vec![m, p1, p2]);
    assert_eq!(r.events, vec![Event::MeteorExploded, Event::MeteorExploded]);
    s.remove_all(&r.destroyed);
    assert!(s.entities.is_empty());
}

#[test]
fn meteor_decay_shrinks_and_removes() {
    let mut s = EntityStore::new();
    let big = s.create(circle(Kind::Meteor, 0, 0, 20_000)).unwrap();
    let mid = s.create(circle(Kind::Meteor, 0, 0, 5_000)).unwrap();
    let small = s.create(circle(Kind::Meteor, 0, 0, 1_005)).unwrap();
    let ship = s.create(circle(Kind::Ship, 0, 0, 1_005)).unwrap();
    decay_all(&mut s);
    assert_eq!(s.get(big).unwrap().body.shape, Shape::Circle { radius: 19_990, color: paint() });
    assert_eq!(s.get(mid).unwrap().body.shape, Shape::Circle { radius: 4_984, color: paint() });
    assert_eq!(s.get(small), Err(StoreError::NotFound));
    assert_eq!(s.get(ship).unwrap().body.shape, Shape::Circle { radius: 1_005, color: paint() });
    let mut last = 4_984;
    for _ in 0..2_000 {
        decay_all(&mut s);
        match s.get(mid) {
            Ok(e) => {
                let Shape::Circle { radius, .. } = e.body.shape else { panic!() };
                assert!(radius < last && radius >= 1_000);
                last = radius;
            }
            Err(_) => break,
        }
    }
    assert_eq!(s.get(mid), Err(StoreError::NotFound));
}

#[test]
fn lifetimes_run_out() {
    let mut s = EntityStore::new();
    let mut b = circle(Kind::Projectile, 0, 0, 1_000);
    b.ttl = Some(2);
    let p = s.create(b).unwrap();
    age_all(&mut s);
    assert_eq!(s.get(p).unwrap().body.ttl, Some(1));
    age_all(&mut s);
    assert_eq!(s.get(p), Err(StoreError::NotFound));
}

#[test]
fn state_machine_priorities() {
    let mut g = GameState::new();
    assert_eq!(g.step(0, 0), None);
    assert_eq!(g.population, 1_200_060_000);
    assert_eq!(g.progress, 150);
    let mut g = GameState::new();
    assert_eq!(g.step(100_000_000_000, 2_000_000_000), Some(Outcome::EveryoneDead));
    let mut g = GameState::new();
    assert_eq!(g.step(100_000_000_000, 0), Some(Outcome::ShipDestroyed));
    assert_eq!(g.health, 0);
    let mut g = GameState { population: 9_999_999_999, ..GameState::new() };
    assert_eq!(g.step(0, 0), Some(Outcome::OverPopulation));
    let mut g = GameState { progress: 999_900, ..GameState::new() };
    assert_eq!(g.step(0, 0), Some(Outcome::Victory));
    assert_eq!(g.progress, 1_000_000);
}

#[test]
fn terminal_state_is_frozen() {
    let mut g = GameState::new();
    g.step(100_000_000_000, 0);
    let frozen = g;
    for _ in 0..10 {
        assert_eq!(g.step(0, 5), None);
        assert_eq!(g, frozen);
    }
}

#[test]
fn warning_rate_limited_and_rearmed() {
    let mut w = WarningClock::new();
    assert!(w.observe(7_000_000_001, 0));
    assert!(!w.observe(7_000_000_001, 40_000), "disarmed until the population falls back");
    assert!(!w.observe(7_000_000_000, 40_000));
    assert!(w.observe(7_000_000_001, 40_000));
    assert_eq!(w.next_ms, 60_000);
    assert!(!w.observe(1, 50_000));
    assert!(!w.observe(7_500_000_000, 50_000), "not due before the interval");
}

#[test]
fn readouts() {
    assert_eq!(population_readout(1_200_000_000), (12, true));
    assert_eq!(population_readout(1_250_000_000), (13, true));
    assert_eq!(population_readout(400_000_000), (400, false));
    assert_eq!(population_readout(1_499_999), (1, false));
    assert_eq!(health_points(10_000_000_000), 100);
    assert_eq!(health_points(2_600_000_000), 26);
    assert_eq!(progress_percent(500_000), 50);
    assert_eq!(progress_difficulty_factor(1_000_000), 2_500_000);
}

#[test]
fn square_root() {
    assert_eq!(isqrt(0), 0);
    assert_eq!(isqrt(99), 9);
    assert_eq!(isqrt(100), 10);
    assert_eq!(isqrt(72_000_000_000_000), 8_485_281);
}

#[test]
fn empty_store_has_no_collisions() {
    let s = EntityStore::new();
    assert!(find_collisions(&s).is_empty());
    assert_eq!(s.get(1), Err(StoreError::NotFound));
    assert!(!s.contains(1));
}

#[test]
fn exhausted_identifiers_create_nothing() {
    let mut s = EntityStore::new();
    s.next_id = u64::MAX - 1;
    assert_eq!(s.create(circle(Kind::Meteor, 0, 0, 10)), Some(u64::MAX - 1));
    assert_eq!(s.create(circle(Kind::Meteor, 0, 0, 10)), None);
    assert_eq!(s.entities.len(), 1);
    assert_eq!(s.next_id, u64::MAX);
}

#[test]
fn replace_missing_entity_is_not_found() {
    let mut s = EntityStore::new();
    let id = s.create(circle(Kind::Meteor, 0, 0, 10)).unwrap();
    let mut e = s.get(id).unwrap();
    e.body.transform.pos_x = 42;
    assert_eq!(s.replace(e), Ok(()));
    assert_eq!(s.get(id).unwrap().body.transform.pos_x, 42);
    e.id = 77;
    assert_eq!(s.replace(e), Err(StoreError::NotFound));
}
