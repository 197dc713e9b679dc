use save_the_pink_skins::{
    Blueprint, Color, Direction, Entity, Event, GameState, Kind, Label, Outcome, Shape, StoreError, Transform, World,
};

fn meteor(x: i64, y: i64, radius: i64) -> Blueprint {
    Blueprint {
        transform: Transform { pos_x: x, pos_y: y, vel_x: 0, vel_y: 0, acc_x: 0, acc_y: 0 },
        kind: Kind::Meteor,
        shape: Shape::Circle { radius, color: Color { r: 224, g: 154, b: 72, a: 255 } },
        ttl: None,
        collidable: true,
    }
}

fn meteors(w: &World) -> Vec<Entity> {
    w.store.entities.iter().copied().filter(|e| e.body.kind == Kind::Meteor).collect()
}

fn radius(e: &Entity) -> i64 {
    match e.body.shape {
        Shape::Circle { radius, .. } => radius,
        Shape::Text { .. } => 0,
    }
}

#[test]
fn new_world_has_craft_planet_and_counters() {
    let w = World::new(7);
    let craft = w.get(w.store.craft.unwrap()).unwrap();
    assert_eq!(craft.body.kind, Kind::Ship);
    assert_eq!((craft.body.transform.pos_x, craft.body.transform.pos_y), (100_000, 300_000));
    let planet = w.get(w.store.planet.unwrap()).unwrap();
    assert_eq!(planet.body.kind, Kind::Planet);
    assert_eq!(radius(&planet), 100_000);
    assert_eq!(w.state, GameState::new());
    assert_eq!(w.stars.len(), 200);
    assert!(w.stars.iter().all(|s| !s.collidable));
    let labels = [w.labels.population, w.labels.health, w.labels.progress];
    assert!(labels.iter().all(|l| l.is_some()));
    assert_eq!(w.get(w.labels.health.unwrap()).unwrap().body.transform.pos_y, 974_000);
}

#[test]
fn meteor_hitting_planet_costs_population() {
    let mut w = World::new(1);
    let id = w.add_meteor(meteor(500_000, 500_000, 5_000)).unwrap();
    let report = w.tick(16, 0, 0);
    assert_eq!(w.get(id), Err(StoreError::NotFound));
    // decayed to 4_984 before the hit: 13 × 4_984² casualties
    assert_eq!(report.population_damage, 322_923_328);
    assert_eq!(w.state.population, 877_120_525);
    assert!(report.events.contains(&Event::PlanetHit));
    let readouts: Vec<Entity> = w
        .store
        .entities
        .iter()
        .copied()
        .filter(|e| matches!(e.body.shape, Shape::Text { label: Label::Impact(_), .. }))
        .collect();
    assert_eq!(readouts.len(), 1);
    assert_eq!(readouts[0].body.ttl, Some(300));
}

#[test]
fn large_meteor_on_planet_is_extinction() {
    let mut w = World::new(1);
    let id = w.add_meteor(meteor(500_000, 500_000, 20_000)).unwrap();
    let report = w.tick(16, 0, 0);
    assert_eq!(w.get(id), Err(StoreError::NotFound));
    // radius 0.02 decays to 19_990 first; g(19_990) exceeds the population
    assert_eq!(report.population_damage, 13 * 19_990 * 19_990);
    assert_eq!(w.state.population, 0);
    assert_eq!(w.state.outcome, Some(Outcome::EveryoneDead));
    assert!(report.events.contains(&Event::GameOver(Outcome::EveryoneDead)));
}

#[test]
fn colliding_meteors_split_in_two() {
    let mut w = World::new(3);
    let a = w.add_meteor(meteor(200_000, 700_000, 10_000)).unwrap();
    let b = w.add_meteor(meteor(205_000, 700_000, 10_000)).unwrap();
    let report = w.tick(16, 0, 0);
    assert_eq!(w.get(a), Err(StoreError::NotFound));
    assert_eq!(w.get(b), Err(StoreError::NotFound));
    let left = meteors(&w);
    assert_eq!(left.len(), 2);
    for m in &left {
        assert_eq!(radius(m), 6_996);
        assert!(m.id > b);
    }
    assert!(report.events.contains(&Event::MeteorBounce));
}

#[test]
fn craft_touching_planet_is_destroyed() {
    let mut w = World::new(5);
    let craft_id = w.store.craft.unwrap();
    assert_eq!(w.state.health, 10_000_000_000);
    let mut craft = w.get(craft_id).unwrap();
    craft.body.transform.pos_x = 450_000;
    craft.body.transform.pos_y = 500_000;
    w.store.replace(craft).unwrap();
    let report = w.tick(16, 0, 0);
    assert_eq!(report.ship_damage, 100_000_000_000);
    assert_eq!(w.state.health, 0);
    assert_eq!(w.state.outcome, Some(Outcome::ShipDestroyed));
    assert_eq!(w.get(craft_id), Err(StoreError::NotFound));
    assert_eq!(w.store.craft, None);
    let result_texts = w
        .store
        .entities
        .iter()
        .filter(|e| matches!(e.body.shape, Shape::Text { label: Label::Result(Outcome::ShipDestroyed), .. }))
        .count();
    assert_eq!(result_texts, 1);
}

#[test]
fn outcome_never_changes_until_restart() {
    let mut w = World::new(5);
    let mut craft = w.get(w.store.craft.unwrap()).unwrap();
    craft.body.transform.pos_x = 500_000;
    craft.body.transform.pos_y = 500_000;
    w.store.replace(craft).unwrap();
    w.tick(16, 0, 0);
    let over = w.state;
    assert_eq!(over.outcome, Some(Outcome::ShipDestroyed));
    for t in 0..100u64 {
        w.add_meteor(meteor(500_000, 500_000, 10_000));
        w.tick(32 + t * 16, 0, 0);
        assert_eq!(w.state, over);
    }
    assert!(w.restart_if_over());
    assert_eq!(w.state, GameState::new());
    assert!(w.store.craft.is_some());
    assert!(!w.restart_if_over(), "no restart while playing");
}

#[test]
fn spawner_catches_up_after_a_stall() {
    let mut w = World::new(11);
    assert_eq!(w.spawn_due(1_000), 0);
    assert_eq!(w.next_spawn_ms, Some(2_800));
    assert_eq!(w.spawn_due(2_800), 0);
    assert_eq!(w.spawn_due(10_000), 4);
    assert_eq!(w.next_spawn_ms, Some(10_000));
    let spawned = meteors(&w);
    assert_eq!(spawned.len(), 4);
    for m in &spawned {
        let r = radius(m);
        assert!((7_000..15_000).contains(&r));
        let t = m.body.transform;
        let on_edge = t.pos_x == -r || t.pos_x == 1_000_000 + r || t.pos_y == -r || t.pos_y == 1_000_000 + r;
        assert!(on_edge);
        assert!((300..1_000).contains(&t.vel_x.abs()) && (300..1_000).contains(&t.vel_y.abs()));
    }
    // meteors differ: the draws are not constant
    assert!(spawned.iter().any(|m| radius(m) != radius(&spawned[0]) || m.body.transform != spawned[0].body.transform));
}

#[test]
fn shooting_fires_toward_the_pointer() {
    let mut w = World::new(2);
    w.start_shooting();
    let report = w.tick(100, 100_000, 1_000_000);
    assert!(report.events.contains(&Event::Shot));
    let shots: Vec<Entity> = w.store.entities.iter().copied().filter(|e| e.body.kind == Kind::Projectile).collect();
    assert_eq!(shots.len(), 1);
    assert_eq!(shots[0].body.transform.vel_x, 0);
    assert_eq!(shots[0].body.transform.vel_y, 10_000);
    assert_eq!(shots[0].body.ttl, Some(49));
    // the next shot waits for the interval
    let report = w.tick(200, 100_000, 1_000_000);
    assert!(!report.events.contains(&Event::Shot));
    let report = w.tick(251, 100_000, 1_000_000);
    assert!(report.events.contains(&Event::Shot));
    w.stop_shooting();
    let report = w.tick(1_000, 100_000, 1_000_000);
    assert!(!report.events.contains(&Event::Shot));
}

#[test]
fn held_direction_moves_the_craft() {
    let mut w = World::new(4);
    w.controls.press(Direction::Right);
    for t in 0..3u64 {
        w.tick(t * 16, 0, 0);
    }
    let craft = w.get(w.store.craft.unwrap()).unwrap();
    assert_eq!(craft.body.transform.acc_x, 30);
    assert_eq!(craft.body.transform.vel_x, 60);
    assert_eq!(craft.body.transform.pos_x, 100_100);
}

#[test]
fn aiming_at_the_craft_does_not_shoot() {
    let mut w = World::new(9);
    let before = w.store.entities.clone();
    assert!(!w.shoot(100_000, 300_000));
    assert_eq!(w.store.entities, before);
    assert!(w.shoot(100_003, 300_004));
    let shot = *w.store.entities.last().unwrap();
    assert_eq!(shot.body.kind, Kind::Projectile);
    assert_eq!((shot.body.transform.vel_x, shot.body.transform.vel_y), (6_000, 8_000));
}

#[test]
fn restart_rebuilds_the_world() {
    let mut w = World::new(9);
    w.add_meteor(meteor(300_000, 300_000, 9_000));
    w.restart();
    assert_eq!(w.store.entities.len(), 6);
    assert_eq!(w.store.craft, Some(1));
    assert_eq!(w.store.planet, Some(2));
    assert_eq!(w.state, GameState::new());
    assert_eq!(w.next_spawn_ms, None);
}

#[test]
fn impact_readout_follows_the_drawing_size() {
    let mut w = World::new(1);
    w.reset_text(500);
    w.add_meteor(meteor(500_000, 450_000, 5_000)).unwrap();
    w.tick(16, 0, 0);
    let readout = w
        .store
        .entities
        .iter()
        .copied()
        .find(|e| matches!(e.body.shape, Shape::Text { label: Label::Impact(_), .. }))
        .unwrap();
    // 13 pixels at 500 pixels per world unit
    assert_eq!(readout.body.transform.pos_y, 450_000 - 26_000);
    assert_eq!(readout.body.transform.pos_x, 400_000);
}

#[test]
fn start_up_layout() {
    let w = World::new(3);
    assert_eq!(w.store.next_id, 7);
    let ids: Vec<u64> = w.store.entities.iter().map(|e| e.id).collect();
    assert_eq!(ids, vec![1, 2, 3, 4, 5, 6]);
    assert_eq!((w.labels.population, w.labels.health, w.labels.progress), (Some(4), Some(5), Some(6)));
    for e in &w.store.entities[3..] {
        assert!(!e.body.collidable);
        assert!(matches!(e.body.shape, Shape::Text { .. }));
    }
    assert_eq!(w.next_spawn_ms, None);
    for s in &w.stars {
        let Shape::Circle { radius, .. } = s.shape else { panic!() };
        assert!((100..500).contains(&radius));
        for v in [s.transform.pos_x, s.transform.pos_y] {
            let off = (v - 500_000).abs();
            assert!((100_000..500_000).contains(&off));
        }
    }
}

#[test]
fn resize_replaces_counter_texts() {
    let mut w = World::new(3);
    w.reset_text(800);
    assert_eq!(w.get(4), Err(StoreError::NotFound));
    assert_eq!((w.labels.population, w.labels.health, w.labels.progress), (Some(7), Some(8), Some(9)));
    assert_eq!(w.get(8).unwrap().body.transform.pos_y, 1_000_000 - 32_500);
    assert_eq!(w.store.entities.len(), 6);
}

#[test]
fn removing_twice_is_removing_once() {
    let mut w = World::new(3);
    let id = w.add_meteor(meteor(300_000, 300_000, 9_000)).unwrap();
    w.remove_object(id);
    let once = w.store.entities.clone();
    w.remove_object(id);
    assert_eq!(w.store.entities, once);
    assert_eq!(w.store.entities.len(), 6);
}

#[test]
fn stars_are_added_to_the_background() {
    let mut w = World::new(6);
    let before = w.stars.clone();
    w.add_stars();
    assert_eq!(w.stars.len(), 400);
    assert_eq!(&w.stars[..200], &before[..]);
}

#[test]
fn tick_reports_the_shot_and_spawned_ids() {
    let mut w = World::new(2);
    w.start_shooting();
    let next = w.store.next_id;
    let report = w.tick(100, 100_000, 1_000_000);
    assert!(report.fired);
    assert!(!report.warned);
    assert!(w.get(next).unwrap().body.kind == Kind::Projectile);
    assert_eq!(w.next_shot_ms, 250);
}
