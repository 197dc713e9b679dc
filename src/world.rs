//! The whole simulation: the store, the game state, the controls, and the
//! fixed-step tick that drives them.
use vstd::prelude::*;
use rand::rngs::StdRng;
use crate::tuning::{
    SCALE, POS_LIMIT, PROJECTILE_RADIUS, PROJECTILE_SPEED, PROJECTILE_TTL,
    SHOT_INTERVAL_MS, WARNING_TTL,
};
use crate::entity::{Blueprint, Color, Entity, Kind, Label, Shape, Transform};
use crate::store::{EntityStore, StoreError, lookup, retired, holds_id};
use crate::physics::{Controls, clamp, steer};
use crate::collision::{Collision, find_collisions, is_collision, overlaps, pair_of};
use crate::resolve::{
    Event, Draws, Resolution, process_collisions, alert_color, quot, all_created_wf, resolved, effect_at,
    destroyed_by, lemma_resolved_destroyed, all_draws_fit, batch_of,
};
use crate::lifetime::{advance_all, advanced};
use crate::spawner::{generate_meteor, spawn_interval_ms};
use crate::state::{GameState, Outcome, WarningClock, stepped};
use crate::random::{seeded, draw_below};

verus! {

/// Number of background stars.
pub const STARS_COUNT: usize = 200;

/// Identifiers of the interface texts that show the counters.
#[derive(Clone, Copy, Debug, PartialEq, Eq, Structural)]
pub struct Labels {
    pub population: Option<u64>,
    pub health: Option<u64>,
    pub progress: Option<u64>,
}

/// What one tick did: the damage taken and what the player should hear.
pub struct TickReport {
    pub ship_damage: u64,
    pub population_damage: u64,
    /// Identifiers the collisions destroyed, each once.
    pub destroyed: Vec<u64>,
    /// Whether the craft fired this tick.
    pub fired: bool,
    /// Whether the overpopulation warning fired this tick.
    pub warned: bool,
    /// Entities the collisions spawned, inserted in this order.
    pub spawned: Vec<Blueprint>,
    /// Identifier of the first spawned entity; the rest follow it.
    pub spawn_from: Ghost<u64>,
    /// The entities after the craft was steered and may have shot.
    pub steered: Ghost<Seq<Entity>>,
    /// The entities among which the collisions were found: those after
    /// everything moved, aged and decayed.
    pub moved: Ghost<Seq<Entity>>,
    pub events: Vec<Event>,
}

/// The simulation.
pub struct World {
    pub store: EntityStore,
    pub state: GameState,
    pub controls: Controls,
    pub warning: WarningClock,
    /// Deadline of the next meteor spawn, once the schedule started.
    pub next_spawn_ms: Option<u64>,
    /// Earliest time of the next shot.
    pub next_shot_ms: u64,
    pub labels: Labels,
    /// Decorative background circles; they never move or collide.
    pub stars: Vec<Blueprint>,
    /// Side of the drawn square, in pixels.
    pub draw_size: u64,
    /// The single source of randomness.
    pub rng: StdRng,
}

/// Integer square root: the largest `r` with `r * r <= n`.
pub fn isqrt(n: u64) -> (r: u64)
    requires
        n <= 100_000_000_000_000,
    ensures
        r * r <= n < (r + 1) * (r + 1),
        r <= 10_000_000,
{
    let mut lo: u64 = 0;
    let mut hi: u64 = 10_000_001;
    assert(hi * hi > 100_000_000_000_000) by (nonlinear_arith) requires hi == 10_000_001;
    while lo + 1 < hi
        invariant
            lo < hi <= 10_000_001,
            lo * lo <= n < hi * hi,
        decreases hi - lo,
    {
        let mid = lo + (hi - lo) / 2;
        assert(mid * mid <= 100_000_020_000_001) by (nonlinear_arith) requires mid <= 10_000_001;
        if mid * mid <= n {
            lo = mid;
        } else {
            hi = mid;
        }
    }
    lo
}

pub open spec fn white() -> Color {
    Color { r: 255, g: 255, b: 255, a: 255 }
}

fn white_color() -> (r: Color)
    ensures
        r == white(),
{
    Color { r: 255, g: 255, b: 255, a: 255 }
}

fn still(x: i64, y: i64) -> (t: Transform)
    ensures
        t == (Transform { pos_x: x, pos_y: y, vel_x: 0, vel_y: 0, acc_x: 0, acc_y: 0 }),
{
    Transform { pos_x: x, pos_y: y, vel_x: 0, vel_y: 0, acc_x: 0, acc_y: 0 }
}

/// A motionless transform at `(x, y)`.
pub open spec fn at_rest(x: i64, y: i64) -> Transform {
    Transform { pos_x: x, pos_y: y, vel_x: 0, vel_y: 0, acc_x: 0, acc_y: 0 }
}

/// A motionless, permanent interface text.
pub open spec fn text_body(x: i64, y: i64, label: Label, size: u32, color: Color) -> Blueprint {
    Blueprint { transform: at_rest(x, y), kind: Kind::UI, shape: Shape::Text { label, size, color }, ttl: None, collidable: false }
}

/// The player's craft as it starts.
pub open spec fn craft_body() -> Blueprint {
    Blueprint {
        transform: at_rest(100_000, 300_000),
        kind: Kind::Ship,
        shape: Shape::Circle { radius: 10_000, color: Color { r: 128, g: 128, b: 179, a: 255 } },
        ttl: None,
        collidable: true,
    }
}

/// The planet, at the centre.
pub open spec fn planet_body() -> Blueprint {
    Blueprint {
        transform: at_rest(500_000, 500_000),
        kind: Kind::Planet,
        shape: Shape::Circle { radius: 100_000, color: Color { r: 77, g: 179, b: 77, a: 255 } },
        ttl: None,
        collidable: true,
    }
}

/// The faint halo around the planet; it never collides.
pub open spec fn halo_body() -> Blueprint {
    Blueprint {
        transform: at_rest(500_000, 500_000),
        kind: Kind::UI,
        shape: Shape::Circle { radius: 105_000, color: Color { r: 38, g: 38, b: 77, a: 77 } },
        ttl: None,
        collidable: false,
    }
}

/// The text that shows how the game ended.
pub open spec fn result_body(o: Outcome) -> Blueprint {
    text_body(350_000, 350_000, Label::Result(o), 26, white())
}

/// The overpopulation warning text, drifting up until its lifetime ends.
pub open spec fn warning_body() -> Blueprint {
    Blueprint {
        transform: Transform { pos_x: 250_000, pos_y: 300_000, vel_x: 0, vel_y: -10i64, acc_x: 0, acc_y: 0 },
        kind: Kind::UI,
        shape: Shape::Text { label: Label::OverpopulationWarning, size: 26, color: crate::resolve::alert_paint() },
        ttl: Some(WARNING_TTL),
        collidable: false,
    }
}

/// Height of `pixels` screen pixels in world units when the world square is
/// drawn `draw_size` pixels wide (sizes above one pixel per unit count as
/// one pixel per unit).
pub open spec fn pixel_height(draw_size: u64, pixels: i64) -> i64 {
    let d = if draw_size > SCALE { SCALE as int } else { draw_size as int };
    (pixels * SCALE / d) as i64
}

/// Offset `v` from the centre is at least 0.1 and under 0.5 of the world.
pub open spec fn off_centre(v: i64) -> bool {
    100_000 <= v - 500_000 < 500_000 || 100_000 <= 500_000 - v < 500_000
}

/// A background star: a motionless, non-colliding interface circle of radius
/// 100 up to 500 units, 0.1 up to 0.5 of the world off the centre on each
/// axis.
pub open spec fn star_ok(b: Blueprint) -> bool {
    &&& b.wf()
    &&& b.kind == Kind::UI
    &&& !b.collidable
    &&& b.ttl is None
    &&& b.transform == at_rest(b.transform.pos_x, b.transform.pos_y)
    &&& off_centre(b.transform.pos_x)
    &&& off_centre(b.transform.pos_y)
    &&& match b.shape {
        Shape::Circle { radius, color } => 100 <= radius < 500 && color == (Color { r: 230, g: 230, b: 230, a: 128 }),
        Shape::Text { .. } => false,
    }
}

/// A meteor the spawner made is live in `s` under identifier `first + i`.
pub open spec fn spawned_at(s: Seq<Entity>, first: u64, i: int, progress: u64) -> bool {
    let id = (first + i) as u64;
    &&& lookup(s, id) is Some
    &&& lookup(s, id).unwrap().id == id
    &&& crate::spawner::spawned_meteor(lookup(s, id).unwrap().body, progress)
}

/// Random values one background star consumes.
#[derive(Clone, Copy, Debug, PartialEq, Eq, Structural)]
pub struct StarDraws {
    /// Distance from the centre on each axis.
    pub off_x: i64,
    pub off_y: i64,
    /// Whether the star lies left of, or above, the centre.
    pub left: bool,
    pub up: bool,
    pub radius: i64,
}

/// The draws come from their ranges: offsets from 0.1 up to 0.5 of the
/// world, radius from 100 up to 500 units.
pub open spec fn star_fit(d: StarDraws) -> bool {
    &&& 100_000 <= d.off_x < 500_000
    &&& 100_000 <= d.off_y < 500_000
    &&& 100 <= d.radius < 500
}

/// The star the draws describe.
pub open spec fn star_from(d: StarDraws) -> Blueprint {
    Blueprint {
        transform: at_rest(
            (if d.left { 500_000 - d.off_x } else { 500_000 + d.off_x }) as i64,
            (if d.up { 500_000 - d.off_y } else { 500_000 + d.off_y }) as i64,
        ),
        kind: Kind::UI,
        shape: Shape::Circle { radius: d.radius, color: Color { r: 230, g: 230, b: 230, a: 128 } },
        ttl: None,
        collidable: false,
    }
}

/// `b` is the star of some fitting draws.
pub open spec fn drawn_star(b: Blueprint) -> bool {
    exists|d: StarDraws| #[trigger] star_fit(d) && b == star_from(d)
}

/// The star that fitting draws describe.
pub fn star_of(d: &StarDraws) -> (b: Blueprint)
    requires
        star_fit(*d),
    ensures
        b == star_from(*d),
        star_ok(b),
{
    let x = if d.left { 500_000 - d.off_x } else { 500_000 + d.off_x };
    let y = if d.up { 500_000 - d.off_y } else { 500_000 + d.off_y };
    Blueprint {
        transform: still(x, y),
        kind: Kind::UI,
        shape: Shape::Circle { radius: d.radius, color: Color { r: 230, g: 230, b: 230, a: 128 } },
        ttl: None,
        collidable: false,
    }
}

/// The identifier the next insertion gets, if identifiers are left.
pub open spec fn next_label(st: EntityStore) -> Option<u64> {
    if st.next_id < u64::MAX { Some(st.next_id) } else { None }
}

/// The population counter text.
pub open spec fn population_text() -> Blueprint {
    text_body(200_000, 0, Label::Population, 32, white())
}

/// The craft health text, one 26-pixel line above the bottom edge.
pub open spec fn health_text(draw_size: u64) -> Blueprint {
    text_body(400_000, crate::physics::clamp_spec(SCALE - pixel_height(draw_size, 26), POS_LIMIT as int) as i64,
        Label::Health, 26, white())
}

/// The victory progress text, 34 pixels below the top edge.
pub open spec fn progress_text(draw_size: u64) -> Blueprint {
    text_body(200_000, crate::physics::clamp_spec(pixel_height(draw_size, 34) as int, POS_LIMIT as int) as i64,
        Label::Progress, 16, white())
}

/// `id` names one of `w`'s counter texts, live as an interface entity.
pub open spec fn is_live_label(w: World, id: u64) -> bool {
    &&& (w.labels.population == Some(id) || w.labels.health == Some(id) || w.labels.progress == Some(id))
    &&& lookup(w.store@, id) is Some
    &&& lookup(w.store@, id).unwrap().body.kind == Kind::UI
}

/// The entities of a freshly populated world, for a drawing size.
pub open spec fn initial_entities(draw_size: u64) -> Seq<Entity> {
    seq![
        Entity { id: 1, body: craft_body() },
        Entity { id: 2, body: planet_body() },
        Entity { id: 3, body: halo_body() },
        Entity { id: 4, body: population_text() },
        Entity { id: 5, body: health_text(draw_size) },
        Entity { id: 6, body: progress_text(draw_size) },
    ]
}

/// `st` with `b` inserted under the next identifier, when identifiers are
/// left; otherwise `st` itself.
pub open spec fn inserted(st: EntityStore, b: Blueprint) -> Seq<Entity> {
    if st.next_id < u64::MAX { st@.push(Entity { id: st.next_id, body: b }) } else { st@ }
}

fn text_at(x: i64, y: i64, label: Label, size: u32, color: Color) -> (b: Blueprint)
    requires
        -POS_LIMIT <= x <= POS_LIMIT,
        -POS_LIMIT <= y <= POS_LIMIT,
    ensures
        b.wf(),
        b == text_body(x, y, label, size, color),
{
    Blueprint { transform: still(x, y), kind: Kind::UI, shape: Shape::Text { label, size, color }, ttl: None, collidable: false }
}

impl World {
    pub open spec fn wf(&self) -> bool {
        &&& self.store.wf()
        &&& self.state.wf()
        &&& self.draw_size > 0
    }

    /// A fresh game whose randomness comes from `seed`.
    pub fn new(seed: u64) -> (w: World)
        ensures
            w.wf(),
            w.state == GameState::initial(),
            w.controls == Controls::none(),
            w.store.craft == Some(1u64),
            w.store.planet == Some(2u64),
            w.store.next_id == 7,
            w.store@ == initial_entities(1_000),
            w.labels == (Labels { population: Some(4), health: Some(5), progress: Some(6) }),
            w.draw_size == 1_000,
            w.next_spawn_ms is None,
            w.warning == (WarningClock { next_ms: 0, armed: true }),
            w.stars@.len() == STARS_COUNT,
            forall|i: int| 0 <= i < STARS_COUNT ==> star_ok(#[trigger] w.stars@[i]) && drawn_star(w.stars@[i]),
    {
        let mut w = World {
            store: EntityStore::new(),
            state: GameState::new(),
            controls: Controls::new(),
            warning: WarningClock::new(),
            next_spawn_ms: None,
            next_shot_ms: 0,
            labels: Labels { population: None, health: None, progress: None },
            stars: Vec::new(),
            draw_size: 1_000,
            rng: seeded(seed),
        };
        w.populate();
        w
    }

    /// Adds the craft, the planet, the counter texts and the stars to an
    /// empty world.
    fn populate(&mut self)
        requires
            old(self).wf(),
            old(self).store@.len() == 0,
            old(self).store.next_id == 1,
            old(self).store.craft is None,
            old(self).store.planet is None,
            old(self).labels == (Labels { population: None, health: None, progress: None }),
            old(self).stars@.len() == 0,
        ensures
            final(self).wf(),
            final(self).state == old(self).state,
            final(self).controls == old(self).controls,
            final(self).store.craft == Some(1u64),
            final(self).store.planet == Some(2u64),
            final(self).store.next_id == 7,
            final(self).store@ == initial_entities(old(self).draw_size),
            final(self).labels == (Labels { population: Some(4), health: Some(5), progress: Some(6) }),
            final(self).draw_size == old(self).draw_size,
            final(self).warning == old(self).warning,
            final(self).next_spawn_ms == old(self).next_spawn_ms,
            final(self).stars@.len() == old(self).stars@.len() + STARS_COUNT,
            forall|i: int| old(self).stars@.len() <= i < final(self).stars@.len()
                ==> star_ok(#[trigger] final(self).stars@[i]) && drawn_star(final(self).stars@[i]),
    {
        self.add_spaceship();
        self.add_earth();
        self.reset_text(self.draw_size);
        self.add_stars();
        assert(self.store@ =~= initial_entities(old(self).draw_size));
    }

    /// Starts over: a fresh store, zeroed counters, and the craft, planet and
    /// background again. The generator continues its sequence.
    pub fn restart(&mut self)
        requires
            old(self).wf(),
        ensures
            final(self).wf(),
            final(self).state == GameState::initial(),
            final(self).controls == Controls::none(),
            final(self).store.craft == Some(1u64),
            final(self).store.planet == Some(2u64),
            final(self).store.next_id == 7,
            final(self).store@ == initial_entities(old(self).draw_size),
            final(self).labels == (Labels { population: Some(4), health: Some(5), progress: Some(6) }),
            final(self).draw_size == old(self).draw_size,
            final(self).next_spawn_ms is None,
            final(self).warning == (WarningClock { next_ms: 0, armed: true }),
            final(self).stars@.len() == STARS_COUNT,
            forall|i: int| 0 <= i < STARS_COUNT ==> star_ok(#[trigger] final(self).stars@[i]) && drawn_star(final(self).stars@[i]),
    {
        self.store = EntityStore::new();
        self.controls = Controls::new();
        self.state = GameState::new();
        self.warning = WarningClock::new();
        self.next_spawn_ms = None;
        self.labels = Labels { population: None, health: None, progress: None };
        self.stars = Vec::new();
        self.populate();
    }

    /// The restart command: honoured only once the game is over.
    pub fn restart_if_over(&mut self) -> (done: bool)
        requires
            old(self).wf(),
        ensures
            final(self).wf(),
            done == old(self).state.outcome is Some,
            done ==> final(self).state == GameState::initial(),
            !done ==> *final(self) == *old(self),
    {
        if self.state.outcome.is_some() {
            self.restart();
            true
        } else {
            false
        }
    }

    /// Inserts an entity; its identifier, or `None` when identifiers are
    /// exhausted.
    pub fn make_object(&mut self, b: Blueprint) -> (r: Option<u64>)
        requires
            old(self).wf(),
            b.wf(),
        ensures
            final(self).wf(),
            final(self).state == old(self).state,
            final(self).controls == old(self).controls,
            final(self).store.craft == old(self).store.craft,
            final(self).store.planet == old(self).store.planet,
            old(self).store.next_id < u64::MAX ==> {
                &&& r == Some(old(self).store.next_id)
                &&& final(self).store@ == old(self).store@.push(Entity { id: old(self).store.next_id, body: b })
            },
            old(self).store.next_id == u64::MAX ==> r is None && final(self).store == old(self).store,
    {
        self.store.create(b)
    }

    /// Adds the player's craft and points the craft reference at it.
    pub fn add_spaceship(&mut self)
        requires
            old(self).wf(),
            old(self).store.next_id < u64::MAX,
        ensures
            final(self).wf(),
            final(self).state == old(self).state,
            final(self).controls == old(self).controls,
            final(self).store.craft == Some(old(self).store.next_id),
            final(self).store.planet == old(self).store.planet,
            final(self).store.next_id == old(self).store.next_id + 1,
            final(self).store@ == old(self).store@.push(Entity { id: old(self).store.next_id, body: craft_body() }),
            final(self).warning == old(self).warning,
            final(self).next_spawn_ms == old(self).next_spawn_ms,
            final(self).labels == old(self).labels,
            final(self).draw_size == old(self).draw_size,
            final(self).stars == old(self).stars,
    {
        let b = Blueprint {
            transform: still(100_000, 300_000),
            kind: Kind::Ship,
            shape: Shape::Circle { radius: 10_000, color: Color { r: 128, g: 128, b: 179, a: 255 } },
            ttl: None,
            collidable: true,
        };
        let id = self.store.create(b);
        proof {
            crate::store::lemma_lookup_at(self.store@, self.store@.len() - 1);
        }
        self.store.craft = id;
    }

    /// Adds the planet, pointing the planet reference at it, and the
    /// non-colliding halo around it.
    pub fn add_earth(&mut self)
        requires
            old(self).wf(),
            old(self).store.next_id < u64::MAX - 1,
        ensures
            final(self).wf(),
            final(self).state == old(self).state,
            final(self).controls == old(self).controls,
            final(self).store.planet == Some(old(self).store.next_id),
            final(self).store.craft == old(self).store.craft,
            final(self).store.next_id == old(self).store.next_id + 2,
            final(self).store@ == old(self).store@
                .push(Entity { id: old(self).store.next_id, body: planet_body() })
                .push(Entity { id: (old(self).store.next_id + 1) as u64, body: halo_body() }),
            final(self).warning == old(self).warning,
            final(self).next_spawn_ms == old(self).next_spawn_ms,
            final(self).labels == old(self).labels,
            final(self).draw_size == old(self).draw_size,
            final(self).stars == old(self).stars,
    {
        let planet = Blueprint {
            transform: still(500_000, 500_000),
            kind: Kind::Planet,
            shape: Shape::Circle { radius: 100_000, color: Color { r: 77, g: 179, b: 77, a: 255 } },
            ttl: None,
            collidable: true,
        };
        let id = self.store.create(planet);
        proof {
            crate::store::lemma_lookup_at(self.store@, self.store@.len() - 1);
        }
        self.store.planet = id;
        let halo = Blueprint {
            transform: still(500_000, 500_000),
            kind: Kind::UI,
            shape: Shape::Circle { radius: 105_000, color: Color { r: 38, g: 38, b: 77, a: 77 } },
            ttl: None,
            collidable: false,
        };
        self.store.create(halo);
    }

    /// Replaces the background with `STARS_COUNT` fresh stars, scattered
    /// around the centre.
    pub fn add_stars(&mut self)
        requires
            old(self).wf(),
        ensures
            final(self).wf(),
            final(self).state == old(self).state,
            final(self).controls == old(self).controls,
            final(self).store == old(self).store,
            final(self).stars@.len() == old(self).stars@.len() + STARS_COUNT,
            forall|i: int| 0 <= i < old(self).stars@.len() ==> #[trigger] final(self).stars@[i] == old(self).stars@[i],
            forall|i: int| old(self).stars@.len() <= i < final(self).stars@.len()
                ==> star_ok(#[trigger] final(self).stars@[i]) && drawn_star(final(self).stars@[i]),
            final(self).labels == old(self).labels,
            final(self).draw_size == old(self).draw_size,
            final(self).warning == old(self).warning,
            final(self).next_spawn_ms == old(self).next_spawn_ms,
    {
        let ghost n0 = self.stars@.len();
        let mut k: usize = 0;
        while k < STARS_COUNT
            invariant
                self.wf(),
                self.state == old(self).state,
                self.controls == old(self).controls,
                self.store == old(self).store,
                k <= STARS_COUNT,
                n0 == old(self).stars@.len(),
                self.stars@.len() == n0 + k,
                forall|i: int| 0 <= i < n0 ==> #[trigger] self.stars@[i] == old(self).stars@[i],
                forall|i: int| n0 <= i < n0 + k ==> star_ok(#[trigger] self.stars@[i]) && drawn_star(self.stars@[i]),
                self.labels == old(self).labels,
                self.draw_size == old(self).draw_size,
                self.warning == old(self).warning,
                self.next_spawn_ms == old(self).next_spawn_ms,
            decreases STARS_COUNT - k,
        {
            let d = StarDraws {
                off_x: draw_below(&mut self.rng, 100_000, 500_000),
                left: draw_below(&mut self.rng, 0, 2) == 0,
                off_y: draw_below(&mut self.rng, 100_000, 500_000),
                up: draw_below(&mut self.rng, 0, 2) == 0,
                radius: draw_below(&mut self.rng, 100, 500),
            };
            let star = star_of(&d);
            assert(star_fit(d) && star == star_from(d));
            self.stars.push(star);
            k += 1;
        }
    }

    /// Replaces the three counter texts, laid out for a square of
    /// `draw_size` pixels.
    pub fn reset_text(&mut self, draw_size: u64)
        requires
            old(self).wf(),
            draw_size > 0,
        ensures
            final(self).wf(),
            final(self).draw_size == draw_size,
            final(self).state == old(self).state,
            final(self).controls == old(self).controls,
            final(self).store.craft is Some ==> final(self).store.craft == old(self).store.craft,
            final(self).store.planet is Some ==> final(self).store.planet == old(self).store.planet,
            old(self).store.craft is Some ==> final(self).store.craft is Some,
            old(self).store.planet is Some ==> final(self).store.planet is Some,
            final(self).warning == old(self).warning,
            final(self).next_spawn_ms == old(self).next_spawn_ms,
            old(self).store.next_id < u64::MAX - 3 ==> {
                let n = old(self).store.next_id;
                &&& final(self).store.next_id == n + 3
                &&& final(self).labels == (Labels { population: Some(n), health: Some((n + 1) as u64), progress: Some((n + 2) as u64) })
                &&& lookup(final(self).store@, n) == Some(Entity { id: n, body: population_text() })
                &&& lookup(final(self).store@, (n + 1) as u64) == Some(Entity { id: (n + 1) as u64, body: health_text(draw_size) })
                &&& lookup(final(self).store@, (n + 2) as u64) == Some(Entity { id: (n + 2) as u64, body: progress_text(draw_size) })
                &&& forall|id: u64| id < n ==> #[trigger] lookup(final(self).store@, id)
                    == if is_live_label(*old(self), id) { None } else { lookup(old(self).store@, id) }
            },
            old(self).labels == (Labels { population: None, health: None, progress: None })
                && old(self).store.next_id < u64::MAX - 3 ==> final(self).store@ == old(self).store@
                    + seq![
                        Entity { id: old(self).store.next_id, body: population_text() },
                        Entity { id: (old(self).store.next_id + 1) as u64, body: health_text(draw_size) },
                        Entity { id: (old(self).store.next_id + 2) as u64, body: progress_text(draw_size) },
                    ],
            final(self).stars == old(self).stars,
    {
        self.draw_size = draw_size;
        let ghost w0 = *self;
        self.remove_label(self.labels.population);
        self.remove_label(self.labels.health);
        self.remove_label(self.labels.progress);
        let ghost w1 = *self;
        assert forall|id: u64| #[trigger] lookup(w1.store@, id)
            == if is_live_label(w0, id) { None } else { lookup(w0.store@, id) } by {}
        self.add_text_population();
        let ghost w2 = *self;
        self.add_text_spaceship_hp();
        let ghost w3 = *self;
        self.add_text_victory_progress();
        proof {
            let n = w0.store.next_id;
            if n < u64::MAX - 3 {
                crate::store::lemma_lookup_at(w2.store@, w2.store@.len() - 1);
                crate::store::lemma_lookup_at(w3.store@, w3.store@.len() - 1);
                crate::store::lemma_lookup_at(self.store@, self.store@.len() - 1);
                assert forall|id: u64| id < n implies #[trigger] lookup(self.store@, id)
                    == if is_live_label(*old(self), id) { None } else { lookup(old(self).store@, id) } by {
                    assert(lookup(w2.store@, id) == lookup(w1.store@, id));
                    assert(lookup(w3.store@, id) == lookup(w2.store@, id));
                    assert(lookup(self.store@, id) == lookup(w3.store@, id));
                    assert(is_live_label(*old(self), id) == is_live_label(w0, id));
                }
                assert(lookup(self.store@, n) == lookup(w2.store@, n));
                assert(lookup(self.store@, (n + 1) as u64) == lookup(w3.store@, (n + 1) as u64));
                if old(self).labels == (Labels { population: None, health: None, progress: None }) {
                    assert(self.store@ =~= old(self).store@
                        + seq![
                            Entity { id: n, body: population_text() },
                            Entity { id: (n + 1) as u64, body: health_text(draw_size) },
                            Entity { id: (n + 2) as u64, body: progress_text(draw_size) },
                        ]);
                }
            }
        }
    }

    /// Height of `pixels` screen pixels in world units, for the current
    /// drawing size (at most one world unit).
    fn pixels(&self, pixels: i64) -> (r: i64)
        requires
            self.draw_size > 0,
            0 <= pixels <= 100,
        ensures
            r == pixel_height(self.draw_size, pixels),
            0 <= r <= 100 * SCALE,
    {
        let d = if self.draw_size > SCALE as u64 { SCALE } else { self.draw_size as i64 };
        pixels * SCALE / d
    }

    /// Adds the population counter text.
    pub fn add_text_population(&mut self)
        requires
            old(self).wf(),
        ensures
            final(self).wf(),
            final(self).draw_size == old(self).draw_size,
            final(self).state == old(self).state,
            final(self).controls == old(self).controls,
            final(self).store.craft == old(self).store.craft,
            final(self).store.planet == old(self).store.planet,
            final(self).store@ == inserted(old(self).store, population_text()),
            final(self).store.next_id == if old(self).store.next_id < u64::MAX {
                (old(self).store.next_id + 1) as u64
            } else {
                old(self).store.next_id
            },
            final(self).labels == (Labels { population: next_label(old(self).store), ..old(self).labels }),
            forall|id: u64| id < old(self).store.next_id
                ==> #[trigger] lookup(final(self).store@, id) == lookup(old(self).store@, id),
            final(self).warning == old(self).warning,
            final(self).next_spawn_ms == old(self).next_spawn_ms,
            final(self).stars == old(self).stars,
    {
        let id = self.store.create(text_at(200_000, 0, Label::Population, 32, white_color()));
        assert(self.store@ == inserted(old(self).store, population_text()));
        self.labels.population = id;
    }

    /// Adds the craft health text, one line above the bottom edge.
    pub fn add_text_spaceship_hp(&mut self)
        requires
            old(self).wf(),
        ensures
            final(self).wf(),
            final(self).draw_size == old(self).draw_size,
            final(self).state == old(self).state,
            final(self).controls == old(self).controls,
            final(self).store.craft == old(self).store.craft,
            final(self).store.planet == old(self).store.planet,
            final(self).store@ == inserted(old(self).store, health_text(old(self).draw_size)),
            final(self).labels == (Labels { health: next_label(old(self).store), ..old(self).labels }),
            forall|id: u64| id < old(self).store.next_id
                ==> #[trigger] lookup(final(self).store@, id) == lookup(old(self).store@, id),
            final(self).warning == old(self).warning,
            final(self).next_spawn_ms == old(self).next_spawn_ms,
            final(self).store.next_id == if old(self).store.next_id < u64::MAX {
                (old(self).store.next_id + 1) as u64
            } else {
                old(self).store.next_id
            },
            final(self).stars == old(self).stars,
    {
        let y = clamp(SCALE - self.pixels(26), POS_LIMIT);
        let id = self.store.create(text_at(400_000, y, Label::Health, 26, white_color()));
        self.labels.health = id;
    }

    /// Adds the victory progress text, below the population counter.
    pub fn add_text_victory_progress(&mut self)
        requires
            old(self).wf(),
        ensures
            final(self).wf(),
            final(self).draw_size == old(self).draw_size,
            final(self).state == old(self).state,
            final(self).controls == old(self).controls,
            final(self).store.craft == old(self).store.craft,
            final(self).store.planet == old(self).store.planet,
            final(self).store@ == inserted(old(self).store, progress_text(old(self).draw_size)),
            final(self).labels == (Labels { progress: next_label(old(self).store), ..old(self).labels }),
            forall|id: u64| id < old(self).store.next_id
                ==> #[trigger] lookup(final(self).store@, id) == lookup(old(self).store@, id),
            final(self).warning == old(self).warning,
            final(self).next_spawn_ms == old(self).next_spawn_ms,
            final(self).store.next_id == if old(self).store.next_id < u64::MAX {
                (old(self).store.next_id + 1) as u64
            } else {
                old(self).store.next_id
            },
            final(self).stars == old(self).stars,
    {
        let y = clamp(self.pixels(34), POS_LIMIT);
        let id = self.store.create(text_at(200_000, y, Label::Progress, 16, white_color()));
        self.labels.progress = id;
    }

    /// Removes a counter text, which is never the craft or the planet.
    fn remove_label(&mut self, label: Option<u64>)
        requires
            old(self).wf(),
        ensures
            final(self).wf(),
            final(self).state == old(self).state,
            final(self).controls == old(self).controls,
            final(self).draw_size == old(self).draw_size,
            final(self).store.craft is Some ==> final(self).store.craft == old(self).store.craft,
            final(self).store.planet is Some ==> final(self).store.planet == old(self).store.planet,
            old(self).store.craft is Some ==> final(self).store.craft is Some,
            old(self).store.planet is Some ==> final(self).store.planet is Some,
            label is None ==> *final(self) == *old(self),
            final(self).labels == old(self).labels,
            final(self).warning == old(self).warning,
            final(self).next_spawn_ms == old(self).next_spawn_ms,
            final(self).store.next_id == old(self).store.next_id,
            forall|i: u64| #[trigger] lookup(final(self).store@, i) == if label == Some(i) && lookup(old(self).store@, i) is Some
                && lookup(old(self).store@, i).unwrap().body.kind == Kind::UI {
                None
            } else {
                lookup(old(self).store@, i)
            },
            final(self).stars == old(self).stars,
    {
        if let Some(id) = label {
            if let Ok(e) = self.store.get(id) {
                if e.body.kind == Kind::UI {
                    self.store.remove(id);
                }
            }
        }
    }

    /// The live entity with identifier `id`.
    pub fn get(&self, id: u64) -> (r: Result<Entity, StoreError>)
        requires
            self.wf(),
        ensures
            match lookup(self.store@, id) {
                Some(e) => r == Ok::<Entity, StoreError>(e),
                None => r == Err::<Entity, StoreError>(StoreError::NotFound),
            },
    {
        self.store.get(id)
    }

    /// Removes the entity with identifier `id`, clearing a reference to it.
    pub fn remove_object(&mut self, id: u64)
        requires
            old(self).wf(),
        ensures
            final(self).wf(),
            final(self).state == old(self).state,
            lookup(final(self).store@, id) is None,
            final(self).store.craft == crate::store::slot_after(old(self).store.craft, seq![id]),
            final(self).store.planet == crate::store::slot_after(old(self).store.planet, seq![id]),
            final(self).store.next_id == old(self).store.next_id,
            forall|i: u64| #[trigger] lookup(final(self).store@, i) == if i == id { None } else { lookup(old(self).store@, i) },
            final(self).controls == old(self).controls,
            final(self).labels == old(self).labels,
            final(self).stars == old(self).stars,
            final(self).warning == old(self).warning,
            final(self).next_spawn_ms == old(self).next_spawn_ms,
            final(self).next_shot_ms == old(self).next_shot_ms,
            final(self).draw_size == old(self).draw_size,
    {
        self.store.remove(id);
    }

    /// The difficulty factor of the current progress, in parts per million.
    pub fn progress_difficulty_factor(&self) -> (r: u64)
        requires
            self.wf(),
        ensures
            r == crate::state::difficulty(self.state.progress),
    {
        crate::state::progress_difficulty_factor(self.state.progress)
    }

    /// Adds a meteor.
    pub fn add_meteor(&mut self, b: Blueprint) -> (r: Option<u64>)
        requires
            old(self).wf(),
            b.wf(),
            b.kind == Kind::Meteor,
        ensures
            final(self).wf(),
            final(self).state == old(self).state,
            final(self).controls == old(self).controls,
            old(self).store.next_id < u64::MAX ==>
                final(self).store@ == old(self).store@.push(Entity { id: old(self).store.next_id, body: b }),
    {
        self.store.create(b)
    }

    /// Fires a projectile from the craft toward `(x, y)` (each clamped to
    /// the world limit), if there is a craft and the aim is not its centre.
    /// Returns whether it fired.
    pub fn shoot(&mut self, x: i64, y: i64) -> (fired: bool)
        requires
            old(self).wf(),
        ensures
            final(self).wf(),
            final(self).state == old(self).state,
            final(self).controls == old(self).controls,
            final(self).store.craft == old(self).store.craft,
            final(self).store.planet == old(self).store.planet,
            !fired ==> final(self).store == old(self).store,
            forall|id: u64| id < old(self).store.next_id
                ==> #[trigger] lookup(final(self).store@, id) == lookup(old(self).store@, id),
            final(self).store.next_id == if fired { (old(self).store.next_id + 1) as u64 } else { old(self).store.next_id },
            final(self).draw_size == old(self).draw_size,
            final(self).warning == old(self).warning,
            final(self).next_shot_ms == old(self).next_shot_ms,
            match old(self).store.craft {
                Some(c) => {
                    let t = lookup(old(self).store@, c).unwrap().body.transform;
                    let dx = crate::physics::clamp_spec(x as int, POS_LIMIT as int) - t.pos_x;
                    let dy = crate::physics::clamp_spec(y as int, POS_LIMIT as int) - t.pos_y;
                    &&& fired <==> (dx != 0 || dy != 0) && old(self).store.next_id < u64::MAX
                    &&& fired ==> exists|d: int| 0 < d && d * d <= dx * dx + dy * dy < (d + 1) * (d + 1)
                        && final(self).store@ == old(self).store@.push(Entity {
                            id: old(self).store.next_id,
                            body: #[trigger] shot_from(t, dx, dy, d),
                        })
                },
                None => !fired,
            },
    {
        let c = match self.store.craft {
            Some(c) => c,
            None => return false,
        };
        let ghost s0 = self.store@;
        let e = self.store.get(c).unwrap();
        let t = e.body.transform;
        proof {
            let k = choose|i: int| 0 <= i < s0.len() && s0[i].id == c;
            crate::store::lemma_lookup_at(s0, k);
            assert(s0[k].wf());
        }
        let dx = clamp(x, POS_LIMIT) - t.pos_x;
        let dy = clamp(y, POS_LIMIT) - t.pos_y;
        assert(0 <= dx * dx <= 36_000_000_000_000) by (nonlinear_arith)
            requires -6_000_000 <= dx <= 6_000_000;
        assert(0 <= dy * dy <= 36_000_000_000_000) by (nonlinear_arith)
            requires -6_000_000 <= dy <= 6_000_000;
        let n = (dx * dx + dy * dy) as u64;
        assert(n == dx * dx + dy * dy);
        let d = isqrt(n);
        if d == 0 {
            assert(n < 1) by (nonlinear_arith)
                requires n < (d + 1) * (d + 1), d == 0;
            assert(dx == 0 && dy == 0) by (nonlinear_arith)
                requires dx * dx + dy * dy < 1;
            return false;
        }
        assert(dx * dx <= d * d + 2 * d) by (nonlinear_arith)
            requires dx * dx + dy * dy < (d + 1) * (d + 1), dy * dy >= 0;
        assert(-(d as int) <= dx <= d) by (nonlinear_arith)
            requires dx * dx <= d * d + 2 * d, d > 0;
        assert(dy * dy <= d * d + 2 * d) by (nonlinear_arith)
            requires dx * dx + dy * dy < (d + 1) * (d + 1), dx * dx >= 0;
        assert(-(d as int) <= dy <= d) by (nonlinear_arith)
            requires dy * dy <= d * d + 2 * d, d > 0;
        let vx = speed_share(dx, d as i64);
        let vy = speed_share(dy, d as i64);
        let b = Blueprint {
            transform: Transform { pos_x: t.pos_x, pos_y: t.pos_y, vel_x: vx, vel_y: vy, acc_x: 0, acc_y: 0 },
            kind: Kind::Projectile,
            shape: Shape::Circle { radius: PROJECTILE_RADIUS, color: Color { r: 179, g: 230, b: 51, a: 255 } },
            ttl: Some(PROJECTILE_TTL),
            collidable: true,
        };
        assert(dx != 0 || dy != 0) by (nonlinear_arith)
            requires d * d <= dx * dx + dy * dy, d > 0;
        assert(b == shot_from(t, dx as int, dy as int, d as int));
        let ghost before = self.store;
        assert(before == old(self).store);
        let r = self.store.create(b);
        proof {
            if r.is_some() {
                assert(shot_from(t, dx as int, dy as int, d as int) == b);
            }
        }
        r.is_some()
    }

    /// Applies the held controls to the craft, if any.
    fn steer_craft(&mut self)
        requires
            old(self).wf(),
        ensures
            final(self).store.next_id == old(self).store.next_id,
            forall|id: u64| #[trigger] lookup(final(self).store@, id) == controlled(old(self).store, old(self).controls, id),
            final(self).draw_size == old(self).draw_size,
            final(self).wf(),
            final(self).state == old(self).state,
            final(self).controls == old(self).controls,
            final(self).store.craft == old(self).store.craft,
            final(self).store.planet == old(self).store.planet,
            final(self).warning == old(self).warning,
            final(self).next_shot_ms == old(self).next_shot_ms,
    {
        if let Some(c) = self.store.craft {
            if let Ok(e) = self.store.get(c) {
                proof {
                    let k = choose|i: int| 0 <= i < self.store@.len() && self.store@[i].id == c;
                    crate::store::lemma_lookup_at(self.store@, k);
                    assert(self.store@[k].wf());
                }
                let body = Blueprint { transform: steer(e.body.transform, self.controls), ..e.body };
                let _ = self.store.replace(Entity { id: c, body });
            }
        }
    }

    /// Spawns every meteor whose deadline `now_ms` has passed, moving the
    /// deadline on by the spawn interval each time, so that stalls are caught
    /// up; the first call only starts the schedule. Returns how many spawned.
    pub fn spawn_due(&mut self, now_ms: u64) -> (count: u64)
        requires
            old(self).wf(),
        ensures
            final(self).wf(),
            final(self).state == old(self).state,
            final(self).controls == old(self).controls,
            final(self).next_spawn_ms is Some,
            final(self).next_spawn_ms.unwrap() >= now_ms || final(self).next_spawn_ms.unwrap() == u64::MAX,
            match old(self).next_spawn_ms {
                None => count == 0 && final(self).next_spawn_ms.unwrap()
                    == crate::resolve::sat_add(now_ms, crate::spawner::spawn_interval(old(self).state.progress) as u64),
                Some(n) => {
                    let i = crate::spawner::spawn_interval(old(self).state.progress);
                    &&& (count == 0 <==> n >= now_ms)
                    &&& count > 0 ==> n + (count - 1) * i < now_ms
                    &&& final(self).next_spawn_ms == Some(
                        if n + count * i <= u64::MAX { (n + count * i) as u64 } else { u64::MAX })
                    &&& n + count * i <= u64::MAX ==> n + count * i >= now_ms
                },
            },
            count == 0 ==> final(self).store == old(self).store,
            final(self).store.craft == old(self).store.craft,
            final(self).store.planet == old(self).store.planet,
            final(self).store.next_id >= old(self).store.next_id,
            forall|id: u64| id < old(self).store.next_id
                ==> #[trigger] lookup(final(self).store@, id) == lookup(old(self).store@, id),
            old(self).store.next_id + count < u64::MAX ==> {
                &&& final(self).store.next_id == old(self).store.next_id + count
                &&& forall|i: int| 0 <= i < count ==> #[trigger] spawned_at(final(self).store@, old(self).store.next_id, i, old(self).state.progress)
            },
    {
        let interval = spawn_interval_ms(self.state.progress);
        let mut next = match self.next_spawn_ms {
            None => {
                self.next_spawn_ms = Some(if now_ms > u64::MAX - interval { u64::MAX } else { now_ms + interval });
                return 0;
            },
            Some(n) => n,
        };
        let ghost n0 = next;
        let mut count: u64 = 0;
        while next < now_ms
            invariant
                self.wf(),
                self.state == old(self).state,
                self.controls == old(self).controls,
                interval == crate::spawner::spawn_interval(old(self).state.progress),
                self.next_spawn_ms == old(self).next_spawn_ms,
                old(self).next_spawn_ms == Some(n0),
                720 <= interval <= 1_800,
                next == n0 + count * interval,
                next < now_ms ==> next < u64::MAX,
                count as int * 720 <= next,
                n0 < now_ms ==> (count == 0 || next - interval < now_ms),
                n0 >= now_ms ==> count == 0,
                n0 < now_ms ==> count > 0 || next == n0,
                count > 0 ==> n0 + (count - 1) * interval < now_ms,
                count == 0 ==> self.store == old(self).store,
                self.store.craft == old(self).store.craft,
                self.store.planet == old(self).store.planet,
                self.store.next_id >= old(self).store.next_id,
                forall|id: u64| id < old(self).store.next_id
                    ==> #[trigger] lookup(self.store@, id) == lookup(old(self).store@, id),
                old(self).store.next_id + count < u64::MAX ==> {
                    &&& self.store.next_id == old(self).store.next_id + count
                    &&& forall|i: int| 0 <= i < count ==> #[trigger] spawned_at(self.store@, old(self).store.next_id, i, old(self).state.progress)
                },
            decreases u64::MAX - next,
        {
            let b = generate_meteor(&mut self.rng, self.state.progress);
            let ghost s0 = self.store;
            self.store.create(b);
            proof {
                if old(self).store.next_id + count + 1 < u64::MAX {
                    crate::store::lemma_lookup_at(self.store@, self.store@.len() - 1);
                    assert forall|i: int| 0 <= i < count + 1 implies spawned_at(self.store@, old(self).store.next_id, i, old(self).state.progress) by {
                        if i < count {
                            assert(spawned_at(s0@, old(self).store.next_id, i, old(self).state.progress));
                            assert(lookup(self.store@, (old(self).store.next_id + i) as u64)
                                == lookup(s0@, (old(self).store.next_id + i) as u64));
                        } else {
                            assert(s0.next_id == old(self).store.next_id + count);
                            assert(self.store@.last() == Entity { id: s0.next_id, body: b });
                        }
                    }
                }
            }
            assert((count + 1) * interval == count * interval + interval) by (nonlinear_arith);
            assert(((count + 1) - 1) * interval == count * interval) by (nonlinear_arith);
            assert((count + 1) * 720 <= count * 720 + interval) by (nonlinear_arith)
                requires 720 <= interval;
            count = count + 1;
            if next > u64::MAX - interval {
                next = u64::MAX;
                self.next_spawn_ms = Some(next);
                return count;
            }
            next = next + interval;
        }
        self.next_spawn_ms = Some(next);
        count
    }

    /// Shows the final result.
    pub fn add_text_victory_result(&mut self, o: Outcome)
        requires
            old(self).wf(),
        ensures
            final(self).wf(),
            final(self).state == old(self).state,
            final(self).controls == old(self).controls,
            final(self).store.craft == old(self).store.craft,
            final(self).store.planet == old(self).store.planet,
            forall|id: u64| #[trigger] retired(old(self).store, id) ==> retired(final(self).store, id),
            final(self).store@ == inserted(old(self).store, result_body(o)),
            final(self).store.next_id == if old(self).store.next_id < u64::MAX {
                (old(self).store.next_id + 1) as u64
            } else {
                old(self).store.next_id
            },
            final(self).store.next_id >= old(self).store.next_id,
            forall|id: u64| id < old(self).store.next_id
                ==> #[trigger] lookup(final(self).store@, id) == lookup(old(self).store@, id),
            final(self).draw_size == old(self).draw_size,
            final(self).next_shot_ms == old(self).next_shot_ms,
            final(self).warning == old(self).warning,
    {
        self.store.create(text_at(350_000, 350_000, Label::Result(o), 26, white_color()));
    }

    /// Watches the population for the overpopulation warning at time
    /// `now_ms` and shows the warning text when it fires. Returns whether it
    /// fired.
    pub fn maybe_make_overpopulation_warning(&mut self, now_ms: u64) -> (fired: bool)
        requires
            old(self).wf(),
        ensures
            final(self).wf(),
            final(self).state == old(self).state,
            final(self).controls == old(self).controls,
            final(self).store.craft == old(self).store.craft,
            final(self).store.planet == old(self).store.planet,
            (final(self).warning, fired)
                == crate::state::warning_after(old(self).warning, old(self).state.population, now_ms),
            forall|id: u64| #[trigger] retired(old(self).store, id) ==> retired(final(self).store, id),
            final(self).store@ == if fired { inserted(old(self).store, warning_body()) } else { old(self).store@ },
            final(self).store.next_id == if fired && old(self).store.next_id < u64::MAX {
                (old(self).store.next_id + 1) as u64
            } else {
                old(self).store.next_id
            },
            final(self).store.next_id >= old(self).store.next_id,
            forall|id: u64| id < old(self).store.next_id
                ==> #[trigger] lookup(final(self).store@, id) == lookup(old(self).store@, id),
            final(self).draw_size == old(self).draw_size,
            final(self).next_shot_ms == old(self).next_shot_ms,
    {
        let fired = self.warning.observe(self.state.population, now_ms);
        if fired {
            let b = Blueprint {
                transform: Transform { pos_x: 250_000, pos_y: 300_000, vel_x: 0, vel_y: -10, acc_x: 0, acc_y: 0 },
                kind: Kind::UI,
                shape: Shape::Text { label: Label::OverpopulationWarning, size: 26, color: alert_color() },
                ttl: Some(WARNING_TTL),
                collidable: false,
            };
            assert(b == warning_body());
            self.store.create(b);
        }
        fired
    }

    /// Mouse down: shooting starts, with no wait for the first shot.
    pub fn start_shooting(&mut self)
        ensures
            final(self).controls == (Controls { shooting: true, ..old(self).controls }),
            final(self).next_shot_ms == 0,
            final(self).store == old(self).store,
            final(self).state == old(self).state,
            final(self).draw_size == old(self).draw_size,
    {
        self.controls.shooting = true;
        self.next_shot_ms = 0;
    }

    /// Mouse up: shooting stops.
    pub fn stop_shooting(&mut self)
        ensures
            final(self).controls == (Controls { shooting: false, ..old(self).controls }),
            final(self).store == old(self).store,
            final(self).state == old(self).state,
            final(self).draw_size == old(self).draw_size,
    {
        self.controls.shooting = false;
    }

    /// Finds this tick's collisions, resolves them, removes every destroyed
    /// entity, then inserts every spawned one.
    fn apply_collisions(&mut self) -> (res: Resolution)
        requires
            old(self).wf(),
            crate::resolve::all_meteors_ready(old(self).store@),
        ensures
            final(self).wf(),
            final(self).state == old(self).state,
            final(self).controls == old(self).controls,
            final(self).draw_size == old(self).draw_size,
            res.destroyed@.no_duplicates(),
            forall|id: u64| #[trigger] res.destroyed@.contains(id) ==> retired(final(self).store, id),
            batch_of(old(self).store@, old(self).state.population, pixel_height(old(self).draw_size, 13),
                res.ship_damage, res.population_damage, res.destroyed@, res.created@),
            forall|i: int| 0 <= i < res.events@.len() ==> !(#[trigger] res.events@[i] is GameOver),
            final(self).store.next_id >= old(self).store.next_id,
            forall|id: u64| lookup(old(self).store@, id) is Some && !res.destroyed@.contains(id)
                ==> #[trigger] lookup(final(self).store@, id) == lookup(old(self).store@, id),
            forall|id: u64| #[trigger] retired(old(self).store, id) ==> retired(final(self).store, id),
            created_inserted(old(self).store.next_id, res.created@, final(self).store),
            final(self).store.craft == old(self).store.craft || final(self).store.craft is None,
            old(self).store.craft is Some && final(self).store.craft is None
                ==> retired(final(self).store, old(self).store.craft.unwrap()),
            final(self).warning == old(self).warning,
            final(self).next_shot_ms == old(self).next_shot_ms,
    {
        let text_drop = self.pixels(13);
        let collisions = find_collisions(&self.store);
        let res = process_collisions(&self.store, &collisions, &mut self.rng, self.state.population, text_drop);
        proof {
            let ds = choose|ds: Seq<Draws>| #[trigger] all_draws_fit(self.store@, collisions@, ds) && res.models(
                resolved(self.store@, collisions@, ds, self.state.population, text_drop, collisions@.len()));
            assert(all_draws_fit(self.store@, collisions@, ds));
            assert forall|id: u64| #[trigger] res.destroyed@.contains(id) implies id < self.store.next_id by {
                lemma_destroyed_live(self.store, collisions@, ds, self.state.population, text_drop, res, id);
            }
            crate::resolve::lemma_no_game_over(self.store@, collisions@, ds, self.state.population, text_drop, collisions@.len());
            assert(batch_of(self.store@, self.state.population, text_drop,
                res.ship_damage, res.population_damage, res.destroyed@, res.created@));
        }
        let ghost before = self.store;
        self.store.remove_all(&res.destroyed);
        assert forall|id: u64| #[trigger] res.destroyed@.contains(id) implies retired(self.store, id) by {
            assert(lookup(self.store@, id) is None);
        }
        assert forall|id: u64| #[trigger] retired(before, id) implies retired(self.store, id) by {
            assert(lookup(self.store@, id) is None);
        }
        proof {
            if let Some(c) = before.craft {
                if self.store.craft is None {
                    lemma_live_below(before, c);
                    assert(lookup(self.store@, c) is None);
                }
            }
        }
        let ghost after = self.store;
        let mut k: usize = 0;
        while k < res.created.len()
            invariant
                forall|id: u64| #[trigger] res.destroyed@.contains(id) ==> retired(self.store, id),
                forall|id: u64| #[trigger] retired(after, id) ==> retired(self.store, id),
                self.wf(),
                self.state == old(self).state,
                self.controls == old(self).controls,
                self.draw_size == old(self).draw_size,
                self.warning == old(self).warning,
                self.next_shot_ms == old(self).next_shot_ms,
                all_created_wf(res.created@),
                k <= res.created@.len(),
                self.store.next_id >= after.next_id,
                after.next_id == before.next_id,
                forall|id: u64| id < after.next_id ==> #[trigger] lookup(self.store@, id) == lookup(after@, id),
                self.store.craft == after.craft,
                after.next_id + res.created@.len() < u64::MAX ==> {
                    &&& self.store.next_id == after.next_id + k
                    &&& forall|i: int| 0 <= i < k ==> #[trigger] lookup(self.store@, (after.next_id + i) as u64)
                        == Some(Entity { id: (after.next_id + i) as u64, body: res.created@[i] })
                },
            decreases res.created@.len() - k,
        {
            assert(res.created@[k as int].wf());
            let ghost s0 = self.store;
            self.store.create(res.created[k]);
            proof {
                if after.next_id + res.created@.len() < u64::MAX {
                    crate::store::lemma_lookup_at(self.store@, self.store@.len() - 1);
                    assert forall|i: int| 0 <= i < k + 1 implies #[trigger] lookup(self.store@, (after.next_id + i) as u64)
                        == Some(Entity { id: (after.next_id + i) as u64, body: res.created@[i] }) by {
                        if i < k {
                            assert(lookup(s0@, (after.next_id + i) as u64)
                                == Some(Entity { id: (after.next_id + i) as u64, body: res.created@[i] }));
                        }
                    }
                }
            }
            k += 1;
        }
        proof {
            assert forall|id: u64| lookup(before@, id) is Some && !res.destroyed@.contains(id)
                implies #[trigger] lookup(self.store@, id) == lookup(before@, id) by {
                lemma_live_below(before, id);
                assert(lookup(after@, id) == lookup(before@, id));
            }
        }
        res
    }

    /// A newly reached outcome: a destroyed craft leaves the store, and the
    /// result text is shown.
    fn finish(&mut self, o: Outcome)
        requires
            old(self).wf(),
        ensures
            final(self).wf(),
            final(self).state == old(self).state,
            final(self).controls == old(self).controls,
            final(self).draw_size == old(self).draw_size,
            final(self).next_shot_ms == old(self).next_shot_ms,
            final(self).warning == old(self).warning,
            o == Outcome::ShipDestroyed ==> final(self).store.craft is None,
            o == Outcome::ShipDestroyed && old(self).store.craft is Some
                ==> retired(final(self).store, old(self).store.craft.unwrap()),
            forall|id: u64| #[trigger] retired(old(self).store, id) ==> retired(final(self).store, id),
            forall|id: u64| id < old(self).store.next_id ==> #[trigger] lookup(final(self).store@, id)
                == if o == Outcome::ShipDestroyed && old(self).store.craft == Some(id) {
                    None
                } else {
                    lookup(old(self).store@, id)
                },
            final(self).store.next_id == if old(self).store.next_id < u64::MAX {
                (old(self).store.next_id + 1) as u64
            } else {
                old(self).store.next_id
            },
            old(self).store.next_id < u64::MAX ==> lookup(final(self).store@, old(self).store.next_id)
                == Some(Entity { id: old(self).store.next_id, body: result_body(o) }),
    {
        let ghost s0 = self.store;
        if o == Outcome::ShipDestroyed {
            if let Some(c) = self.store.craft {
                self.store.remove(c);
                proof {
                    lemma_live_below(s0, c);
                    assert(lookup(self.store@, c) is None);
                    assert forall|id: u64| #[trigger] retired(s0, id) implies retired(self.store, id) by {
                        assert(lookup(self.store@, id) == lookup(s0@, id) || lookup(self.store@, id) is None);
                    }
                }
            }
        }
        let ghost s1 = self.store;
        assert(forall|id: u64| id < s0.next_id ==> #[trigger] lookup(s1@, id)
            == if o == Outcome::ShipDestroyed && s0.craft == Some(id) { None } else { lookup(s0@, id) });
        self.add_text_victory_result(o);
        proof {
            assert forall|id: u64| id < s0.next_id implies #[trigger] lookup(self.store@, id)
                == if o == Outcome::ShipDestroyed && s0.craft == Some(id) { None } else { lookup(s0@, id) } by {
                assert(lookup(s1@, id) == if o == Outcome::ShipDestroyed && s0.craft == Some(id) {
                    None
                } else {
                    lookup(s0@, id)
                });
            }
            if s0.next_id < u64::MAX {
                crate::store::lemma_lookup_at(self.store@, self.store@.len() - 1);
            }
        }
    }

    /// The end of a tick: the game state takes the tick's damage; a newly
    /// reached outcome is shown (and a destroyed craft removed); the
    /// overpopulation warning is checked. Returns the outcome reached by this
    /// tick, if any, and whether the warning fired.
    fn settle(&mut self, ship_damage: u64, population_damage: u64, now_ms: u64) -> (r: (Option<Outcome>, bool))
        requires
            old(self).wf(),
        ensures
            final(self).wf(),
            final(self).controls == old(self).controls,
            final(self).state == stepped(old(self).state, ship_damage, population_damage),
            r.0 == if old(self).state.outcome is None { final(self).state.outcome } else { None },
            r.0 == Some(Outcome::ShipDestroyed) ==> final(self).store.craft is None,
            r.0 == Some(Outcome::ShipDestroyed) && old(self).store.craft is Some
                ==> retired(final(self).store, old(self).store.craft.unwrap()),
            final(self).draw_size == old(self).draw_size,
            final(self).next_shot_ms == old(self).next_shot_ms,
            (final(self).warning, r.1) == crate::state::warning_after(old(self).warning, final(self).state.population, now_ms),
            forall|id: u64| #[trigger] retired(old(self).store, id) ==> retired(final(self).store, id),
            forall|id: u64| id < old(self).store.next_id ==> #[trigger] lookup(final(self).store@, id)
                == if r.0 == Some(Outcome::ShipDestroyed) && old(self).store.craft == Some(id) {
                    None
                } else {
                    lookup(old(self).store@, id)
                },
            old(self).store.next_id + 2 < u64::MAX ==> {
                let e = old(self).store.next_id;
                let k: int = if r.0 is Some { 1 } else { 0 };
                &&& final(self).store.next_id == e + k + (if r.1 { 1int } else { 0int })
                &&& r.0 is Some ==> lookup(final(self).store@, e) == Some(Entity { id: e, body: result_body(r.0.unwrap()) })
                &&& r.1 ==> lookup(final(self).store@, (e + k) as u64)
                    == Some(Entity { id: (e + k) as u64, body: warning_body() })
            },
    {
        let ghost s0 = self.store;
        let reached = self.state.step(ship_damage, population_damage);
        if let Some(o) = reached {
            self.finish(o);
        }
        let ghost s2 = self.store;
        let warned = self.maybe_make_overpopulation_warning(now_ms);
        proof {
            assert forall|id: u64| id < s0.next_id implies #[trigger] lookup(self.store@, id)
                == if reached == Some(Outcome::ShipDestroyed) && s0.craft == Some(id) { None } else { lookup(s0@, id) } by {
                assert(lookup(s2@, id) == if reached == Some(Outcome::ShipDestroyed) && s0.craft == Some(id) {
                    None
                } else {
                    lookup(s0@, id)
                });
                assert(lookup(self.store@, id) == lookup(s2@, id));
            }
            if s0.next_id + 2 < u64::MAX {
                if let Some(o) = reached {
                    assert(lookup(s2@, s0.next_id) == Some(Entity { id: s0.next_id, body: result_body(o) }));
                    assert(lookup(self.store@, s0.next_id) == lookup(s2@, s0.next_id));
                }
                if warned {
                    crate::store::lemma_lookup_at(self.store@, self.store@.len() - 1);
                }
            }
        }
        (reached, warned)
    }

    /// The control step of a tick: the craft is steered, and shoots toward
    /// `(aim_x, aim_y)` when a shot is due. Returns whether it fired.
    fn control(&mut self, now_ms: u64, aim_x: i64, aim_y: i64) -> (fired: bool)
        requires
            old(self).wf(),
        ensures
            final(self).wf(),
            final(self).state == old(self).state,
            final(self).controls == old(self).controls,
            final(self).draw_size == old(self).draw_size,
            final(self).warning == old(self).warning,
            final(self).store.craft == old(self).store.craft,
            final(self).next_shot_ms == if shot_due(*old(self), now_ms) {
                crate::resolve::sat_add(now_ms, SHOT_INTERVAL_MS)
            } else {
                old(self).next_shot_ms
            },
            fired ==> shot_due(*old(self), now_ms),
            shot_due(*old(self), now_ms) ==> (fired <==> {
                let (dx, dy) = aim_offset(old(self).store, aim_x, aim_y);
                (dx != 0 || dy != 0) && old(self).store.next_id < u64::MAX
            }),
            final(self).store.next_id == if fired { (old(self).store.next_id + 1) as u64 } else { old(self).store.next_id },
            forall|id: u64| id < old(self).store.next_id
                ==> #[trigger] lookup(final(self).store@, id) == controlled(old(self).store, old(self).controls, id),
            fired ==> lookup(final(self).store@, old(self).store.next_id) is Some
                && is_shot(old(self).store, aim_x, aim_y, lookup(final(self).store@, old(self).store.next_id).unwrap()),
    {
        if self.store.craft.is_some() {
            self.steer_craft();
            if self.controls.shooting && self.next_shot_ms < now_ms {
                let ghost s1 = self.store;
                let c = self.store.craft.unwrap();
                proof {
                    let k = choose|i: int| 0 <= i < old(self).store@.len() && old(self).store@[i].id == c;
                    crate::store::lemma_lookup_at(old(self).store@, k);
                    assert(lookup(s1@, c) == controlled(old(self).store, old(self).controls, c));
                }
                let fired = self.shoot(aim_x, aim_y);
                self.next_shot_ms = if now_ms > u64::MAX - SHOT_INTERVAL_MS { u64::MAX } else { now_ms + SHOT_INTERVAL_MS };
                proof {
                    if fired {
                        crate::store::lemma_lookup_at(self.store@, self.store@.len() - 1);
                        let (dx, dy) = aim_offset(old(self).store, aim_x, aim_y);
                        let t0 = lookup(old(self).store@, c).unwrap().body.transform;
                        let t1 = lookup(s1@, c).unwrap().body.transform;
                        assert(t1.pos_x == t0.pos_x && t1.pos_y == t0.pos_y);
                        let d = choose|d: int| 0 < d && d * d <= dx * dx + dy * dy < (d + 1) * (d + 1)
                            && self.store@ == s1@.push(Entity {
                                id: s1.next_id,
                                body: #[trigger] shot_from(t1, dx, dy, d),
                            });
                        assert(shot_from(t1, dx, dy, d) == shot_from(t0, dx, dy, d));
                    }
                }
                return fired;
            }
        }
        false
    }

    /// The first three phases of a tick: control, motion and collisions.
    /// Returns whether the craft fired, the collision batch, and the stores
    /// after control and after motion.
    fn act(&mut self, now_ms: u64, aim_x: i64, aim_y: i64)
        -> (r: (bool, Resolution, Ghost<EntityStore>, Ghost<EntityStore>))
        requires
            old(self).wf(),
        ensures
            ({
                let (fired, res, st, mv) = r;
                let steered = st@;
                let moved = mv@;
                &&& final(self).wf()
                &&& final(self).state == old(self).state
                &&& final(self).controls == old(self).controls
                &&& final(self).draw_size == old(self).draw_size
                &&& final(self).warning == old(self).warning
                &&& final(self).next_shot_ms == if shot_due(*old(self), now_ms) {
                    crate::resolve::sat_add(now_ms, SHOT_INTERVAL_MS)
                } else {
                    old(self).next_shot_ms
                }
                &&& fired ==> shot_due(*old(self), now_ms)
                &&& shot_due(*old(self), now_ms) ==> (fired <==> {
                    let (dx, dy) = aim_offset(old(self).store, aim_x, aim_y);
                    (dx != 0 || dy != 0) && old(self).store.next_id < u64::MAX
                })
                &&& steered.wf()
                &&& steered.craft == old(self).store.craft
                &&& steered.next_id == old(self).store.next_id + (if fired { 1int } else { 0int })
                &&& forall|id: u64| id < old(self).store.next_id
                    ==> #[trigger] lookup(steered@, id) == controlled(old(self).store, old(self).controls, id)
                &&& fired ==> lookup(steered@, old(self).store.next_id) is Some
                    && is_shot(old(self).store, aim_x, aim_y, lookup(steered@, old(self).store.next_id).unwrap())
                &&& moved.wf()
                &&& moved.next_id == steered.next_id
                &&& moved.craft == crate::lifetime::slot_kept(steered.craft, moved@)
                &&& forall|id: u64| #[trigger] lookup(moved@, id) == match lookup(steered@, id) {
                    Some(e) => advanced(e),
                    None => None,
                }
                &&& crate::resolve::all_meteors_ready(moved@)
                &&& res.destroyed@.no_duplicates()
                &&& forall|id: u64| #[trigger] res.destroyed@.contains(id) ==> retired(final(self).store, id)
                &&& batch_of(moved@, old(self).state.population, pixel_height(old(self).draw_size, 13),
                    res.ship_damage, res.population_damage, res.destroyed@, res.created@)
                &&& forall|i: int| 0 <= i < res.events@.len() ==> !(#[trigger] res.events@[i] is GameOver)
                &&& final(self).store.next_id >= moved.next_id
                &&& forall|id: u64| lookup(moved@, id) is Some && !res.destroyed@.contains(id)
                    ==> #[trigger] lookup(final(self).store@, id) == lookup(moved@, id)
                &&& forall|id: u64| #[trigger] retired(moved, id) ==> retired(final(self).store, id)
                &&& created_inserted(moved.next_id, res.created@, final(self).store)
                &&& final(self).store.craft == moved.craft || final(self).store.craft is None
                &&& moved.craft is Some && final(self).store.craft is None
                    ==> retired(final(self).store, moved.craft.unwrap())
            }),
    {
        let fired = self.control(now_ms, aim_x, aim_y);
        let ghost steered = self.store;
        advance_all(&mut self.store);
        let ghost moved = self.store;
        let res = self.apply_collisions();
        (fired, res, Ghost(steered), Ghost(moved))
    }

    /// One fixed step of the simulation at time `now_ms`, with the pointer at
    /// `(aim_x, aim_y)`: the craft is steered and may shoot; everything
    /// moves; lifetimes and meteors run down; collisions are found and
    /// resolved; the destroyed entities are removed before the spawned ones
    /// are inserted; then the game state takes the tick's damage.
    #[verifier::rlimit(100)]
    pub fn tick(&mut self, now_ms: u64, aim_x: i64, aim_y: i64) -> (r: TickReport)
        requires
            old(self).wf(),
        ensures
            final(self).wf(),
            final(self).controls == old(self).controls,
            final(self).state == stepped(old(self).state, r.ship_damage, r.population_damage),
            old(self).state.outcome is Some ==> final(self).state == old(self).state,
            old(self).state.outcome is Some ==> forall|o: Outcome| !r.events@.contains(Event::GameOver(o)),
            old(self).state.outcome is None && final(self).state.outcome is Some
                ==> r.events@.contains(Event::GameOver(final(self).state.outcome.unwrap())),
            old(self).state.outcome is None && final(self).state.outcome == Some(Outcome::ShipDestroyed)
                ==> final(self).store.craft is None,
            old(self).state.outcome is None && final(self).state.outcome == Some(Outcome::ShipDestroyed)
                && old(self).store.craft is Some ==> lookup(final(self).store@, old(self).store.craft.unwrap()) is None,
            // control: steering and the shot
            final(self).next_shot_ms == if shot_due(*old(self), now_ms) {
                crate::resolve::sat_add(now_ms, SHOT_INTERVAL_MS)
            } else {
                old(self).next_shot_ms
            },
            r.fired ==> shot_due(*old(self), now_ms),
            shot_due(*old(self), now_ms) ==> (r.fired <==> {
                let (dx, dy) = aim_offset(old(self).store, aim_x, aim_y);
                (dx != 0 || dy != 0) && old(self).store.next_id < u64::MAX
            }),
            r.spawn_from@ == old(self).store.next_id + (if r.fired { 1int } else { 0int }),
            forall|id: u64| id < old(self).store.next_id
                ==> #[trigger] lookup(r.steered@, id) == controlled(old(self).store, old(self).controls, id),
            forall|id: u64| id >= old(self).store.next_id && #[trigger] lookup(r.steered@, id) is Some
                ==> r.fired && id == old(self).store.next_id,
            r.fired ==> lookup(r.steered@, old(self).store.next_id) is Some
                && is_shot(old(self).store, aim_x, aim_y, lookup(r.steered@, old(self).store.next_id).unwrap()),
            // motion
            forall|id: u64| #[trigger] lookup(r.moved@, id) == match lookup(r.steered@, id) {
                Some(e) => advanced(e),
                None => None,
            },
            crate::store::ids_ascending(r.moved@),
            crate::store::all_wf(r.moved@),
            crate::resolve::all_meteors_ready(r.moved@),
            forall|id: u64| #[trigger] lookup(r.moved@, id) is Some ==> id < r.spawn_from@,
            // collisions
            batch_of(r.moved@, old(self).state.population, pixel_height(old(self).draw_size, 13),
                r.ship_damage, r.population_damage, r.destroyed@, r.spawned@),
            r.destroyed@.no_duplicates(),
            forall|id: u64| #[trigger] r.destroyed@.contains(id) ==> lookup(final(self).store@, id) is None,
            // the store afterwards: survivors, the spawned entities, then the
            // result text and the warning text
            (final(self).warning, r.warned)
                == crate::state::warning_after(old(self).warning, final(self).state.population, now_ms),
            forall|id: u64| id < r.spawn_from@ ==> #[trigger] lookup(final(self).store@, id)
                == if lookup(r.moved@, id) is None || r.destroyed@.contains(id)
                    || (old(self).state.outcome is None && final(self).state.outcome == Some(Outcome::ShipDestroyed)
                        && old(self).store.craft == Some(id)) {
                    None
                } else {
                    lookup(r.moved@, id)
                },
            r.spawn_from@ + r.spawned@.len() + 2 < u64::MAX ==> {
                let first_text = r.spawn_from@ + r.spawned@.len();
                let k: int = if old(self).state.outcome is None && final(self).state.outcome is Some { 1 } else { 0 };
                &&& forall|i: int| 0 <= i < r.spawned@.len()
                    ==> #[trigger] lookup(final(self).store@, (r.spawn_from@ + i) as u64)
                        == Some(Entity { id: (r.spawn_from@ + i) as u64, body: r.spawned@[i] })
                &&& k == 1 ==> lookup(final(self).store@, first_text as u64)
                    == Some(Entity { id: first_text as u64, body: result_body(final(self).state.outcome.unwrap()) })
                &&& r.warned ==> lookup(final(self).store@, (first_text + k) as u64)
                    == Some(Entity { id: (first_text + k) as u64, body: warning_body() })
                &&& final(self).store.next_id == first_text + k + (if r.warned { 1int } else { 0int })
            },
    {
        let mut events: Vec<Event> = Vec::new();
        let ghost s_old = self.store;
        let (fired, res, gs, gm) = self.act(now_ms, aim_x, aim_y);
        if fired {
            events.push(Event::Shot);
        }
        let ghost s_steered = gs@;
        let ghost steered = gs@@;
        let ghost s_moved = gm@;
        let ghost moved = gm@@;
        let ghost s_applied = self.store;
        let mut k: usize = 0;
        while k < res.events.len()
            invariant
                k <= res.events@.len(),
                forall|i: int| 0 <= i < res.events@.len() ==> !(#[trigger] res.events@[i] is GameOver),
                forall|i: int| 0 <= i < events@.len() ==> !(#[trigger] events@[i] is GameOver),
            decreases res.events@.len() - k,
        {
            events.push(res.events[k]);
            k += 1;
        }
        let ghost plain = events@;
        let (reached, warned) = self.settle(res.ship_damage, res.population_damage, now_ms);
        if let Some(o) = reached {
            events.push(Event::GameOver(o));
        }
        let ghost before = events@;
        if warned {
            events.push(Event::OverpopulationWarning);
            proof {
                if let Some(o) = reached {
                    assert(events@[before.len() - 1] == Event::GameOver(o));
                }
            }
        }
        proof {
            let lost = old(self).state.outcome is None && self.state.outcome == Some(Outcome::ShipDestroyed);
            assert(lost == (reached == Some(Outcome::ShipDestroyed)));
            if lost {
                if let Some(c) = s_old.craft {
                    lemma_live_below(s_old, c);
                    if s_applied.craft is Some {
                        assert(retired(self.store, c));
                    } else if s_moved.craft is Some {
                        assert(retired(s_applied, c));
                        assert(retired(self.store, c));
                    } else {
                        assert(lookup(s_moved@, c) is None);
                        assert(retired(s_moved, c));
                        assert(retired(s_applied, c));
                        assert(retired(self.store, c));
                    }
                }
            }
            assert forall|id: u64| id < s_moved.next_id implies #[trigger] lookup(self.store@, id)
                == if lookup(moved, id) is None || res.destroyed@.contains(id) || (lost && s_old.craft == Some(id)) {
                    None
                } else {
                    lookup(moved, id)
                } by {
                lemma_tick_survivor(s_old, s_steered, s_moved, s_applied, self.store, res.destroyed@, lost, id);
            }
            if s_moved.next_id + res.created@.len() + 2 < u64::MAX {
                assert forall|i: int| 0 <= i < res.created@.len()
                    implies #[trigger] lookup(self.store@, (s_moved.next_id + i) as u64)
                        == Some(Entity { id: (s_moved.next_id + i) as u64, body: res.created@[i] }) by {
                    assert(lookup(s_applied@, (s_moved.next_id + i) as u64)
                        == Some(Entity { id: (s_moved.next_id + i) as u64, body: res.created@[i] }));
                    if let Some(c) = s_moved.craft {
                        lemma_live_below(s_moved, c);
                    }
                }
            }
            if old(self).state.outcome is Some {
                assert forall|o: Outcome| !events@.contains(Event::GameOver(o)) by {
                    if events@.contains(Event::GameOver(o)) {
                        let i = choose|i: int| 0 <= i < events@.len() && events@[i] == Event::GameOver(o);
                        if i < plain.len() {
                            assert(!(plain[i] is GameOver));
                        }
                    }
                }
            }
            assert forall|id: u64| #[trigger] res.destroyed@.contains(id) implies lookup(self.store@, id) is None by {
                assert(retired(self.store, id));
            }
            assert forall|id: u64| id >= s_old.next_id && #[trigger] lookup(steered, id) is Some
                implies fired && id == s_old.next_id by {
                lemma_live_below(s_steered, id);
            }
            assert forall|id: u64| #[trigger] lookup(moved, id) is Some implies id < s_moved.next_id by {
                lemma_live_below(s_moved, id);
            }
        }
        TickReport {
            ship_damage: res.ship_damage,
            population_damage: res.population_damage,
            destroyed: res.destroyed,
            spawned: res.created,
            spawn_from: Ghost(s_moved.next_id),
            steered: Ghost(steered),
            moved: Ghost(moved),
            fired,
            warned,
            events,
        }
    }
}

/// The spawned entities `created` are live in `st` under consecutive fresh
/// identifiers from `first`, unless the identifiers ran out.
pub open spec fn created_inserted(first: u64, created: Seq<Blueprint>, st: EntityStore) -> bool {
    first + created.len() < u64::MAX ==> {
        &&& st.next_id == first + created.len()
        &&& forall|i: int| 0 <= i < created.len() ==> #[trigger] lookup(st@, (first + i) as u64)
            == Some(Entity { id: (first + i) as u64, body: created[i] })
    }
}

/// A live identifier is below the next one to be handed out.
proof fn lemma_live_below(st: EntityStore, id: u64)
    requires
        st.wf(),
        lookup(st@, id) is Some,
    ensures
        id < st.next_id,
{
    let k = choose|i: int| 0 <= i < st@.len() && st@[i].id == id;
    assert(st@[k].id < st.next_id);
}

/// What a batch destroys was live when the batch was resolved.
proof fn lemma_destroyed_live(st: EntityStore, cs: Seq<Collision>, ds: Seq<Draws>, pop: u64, text_drop: i64, r: Resolution, id: u64)
    requires
        st.wf(),
        forall|k: int| 0 <= k < cs.len() ==> is_collision(st@, #[trigger] cs[k]),
        r.models(resolved(st@, cs, ds, pop, text_drop, cs.len())),
        r.destroyed@.contains(id),
    ensures
        id < st.next_id,
{
    lemma_resolved_destroyed(st@, cs, ds, pop, text_drop, cs.len(), id);
    let k = choose|k: int| 0 <= k < cs.len()
        && #[trigger] destroyed_by(cs[k], effect_at(st@, cs, ds, pop, text_drop, k)).contains(id);
    let c = cs[k];
    assert(is_collision(st@, c));
    let (i, j) = choose|i: int, j: int| 0 <= i < j < st@.len() && overlaps(st@[i].body, st@[j].body)
        && c == #[trigger] pair_of(st@, i, j);
    assert(st@[i].id < st.next_id && st@[j].id < st.next_id);
}

/// The shooting control is held, its interval has passed, and there is a
/// craft to shoot from.
pub open spec fn shot_due(w: World, now_ms: u64) -> bool {
    w.controls.shooting && w.next_shot_ms < now_ms && w.store.craft is Some
}

/// Offset from the craft's centre to the aim point (clamped to the world
/// limit) on each axis.
pub open spec fn aim_offset(st: EntityStore, x: i64, y: i64) -> (int, int) {
    let t = lookup(st@, st.craft.unwrap()).unwrap().body.transform;
    (crate::physics::clamp_spec(x as int, POS_LIMIT as int) - t.pos_x,
        crate::physics::clamp_spec(y as int, POS_LIMIT as int) - t.pos_y)
}

/// `e` is the projectile the craft of `st` fires at `(x, y)`: under the next
/// identifier, toward the aim, at the distance rounded down.
pub open spec fn is_shot(st: EntityStore, x: i64, y: i64, e: Entity) -> bool {
    let (dx, dy) = aim_offset(st, x, y);
    &&& e.id == st.next_id
    &&& exists|d: int| 0 < d && d * d <= dx * dx + dy * dy < (d + 1) * (d + 1)
        && e.body == #[trigger] shot_from(lookup(st@, st.craft.unwrap()).unwrap().body.transform, dx, dy, d)
}

/// The entity with identifier `id` after the controls `c` acted on the craft
/// of `st`: the craft's transform is steered, the rest is as it was.
pub open spec fn controlled(st: EntityStore, c: Controls, id: u64) -> Option<Entity> {
    match lookup(st@, id) {
        Some(e) => if st.craft == Some(id) {
            Some(Entity { id, body: Blueprint { transform: crate::physics::steered(e.body.transform, c), ..e.body } })
        } else {
            Some(e)
        },
        None => None,
    }
}

/// An entity that was live after the motion phase is, at the end of the
/// tick, as it was then, unless the collisions destroyed it or it is the
/// craft of a game just lost.
proof fn lemma_tick_survivor(
    s_old: EntityStore,
    s_steered: EntityStore,
    s_moved: EntityStore,
    s_applied: EntityStore,
    s_final: EntityStore,
    destroyed: Seq<u64>,
    lost: bool,
    id: u64,
)
    requires
        s_old.wf(),
        s_moved.wf(),
        s_applied.wf(),
        s_steered.craft == s_old.craft,
        s_moved.next_id == s_steered.next_id,
        s_moved.craft == crate::lifetime::slot_kept(s_steered.craft, s_moved@),
        forall|x: u64| #[trigger] destroyed.contains(x) ==> retired(s_applied, x),
        forall|x: u64| lookup(s_moved@, x) is Some && !destroyed.contains(x)
            ==> #[trigger] lookup(s_applied@, x) == lookup(s_moved@, x),
        forall|x: u64| #[trigger] retired(s_moved, x) ==> retired(s_applied, x),
        s_applied.next_id >= s_moved.next_id,
        s_applied.craft == s_moved.craft || s_applied.craft is None,
        s_moved.craft is Some && s_applied.craft is None ==> retired(s_applied, s_moved.craft.unwrap()),
        forall|x: u64| x < s_applied.next_id ==> #[trigger] lookup(s_final@, x)
            == if lost && s_applied.craft == Some(x) { None } else { lookup(s_applied@, x) },
        lost && s_old.craft is Some ==> lookup(s_final@, s_old.craft.unwrap()) is None,
        id < s_moved.next_id,
    ensures
        lookup(s_final@, id) == if lookup(s_moved@, id) is None || destroyed.contains(id) || (lost && s_old.craft == Some(id)) {
            None
        } else {
            lookup(s_moved@, id)
        },
{
    assert(lookup(s_final@, id) == if lost && s_applied.craft == Some(id) { None } else { lookup(s_applied@, id) });
    if lost && s_old.craft == Some(id) {
    } else if lookup(s_moved@, id) is None {
        assert(retired(s_moved, id));
        assert(retired(s_applied, id));
        if lost && s_applied.craft == Some(id) {
        }
    } else if destroyed.contains(id) {
        assert(retired(s_applied, id));
    } else {
        assert(lookup(s_applied@, id) == lookup(s_moved@, id));
        if lost && s_applied.craft == Some(id) {
            assert(s_moved.craft == Some(id));
            assert(s_steered.craft == Some(id));
        }
    }
}

/// A projectile at `(x, y)` with the given velocity.
pub open spec fn projectile(x: i64, y: i64, vx: int, vy: int) -> Blueprint {
    Blueprint {
        transform: Transform { pos_x: x, pos_y: y, vel_x: vx as i64, vel_y: vy as i64, acc_x: 0, acc_y: 0 },
        kind: Kind::Projectile,
        shape: Shape::Circle { radius: PROJECTILE_RADIUS, color: Color { r: 179, g: 230, b: 51, a: 255 } },
        ttl: Some(PROJECTILE_TTL),
        collidable: true,
    }
}

/// A projectile from the centre of `t`, toward an offset `(dx, dy)` at
/// distance `d` (rounded down).
pub open spec fn shot_from(t: Transform, dx: int, dy: int, d: int) -> Blueprint {
    projectile(t.pos_x, t.pos_y, quot(PROJECTILE_SPEED * dx, d), quot(PROJECTILE_SPEED * dy, d))
}

/// The projectile speed's share on an axis with offset `delta` of a total
/// distance `d`.
fn speed_share(delta: i64, d: i64) -> (r: i64)
    requires
        0 < d <= 100_000_000,
        -d <= delta <= d,
    ensures
        r == quot(PROJECTILE_SPEED * delta, d as int),
        -PROJECTILE_SPEED <= r <= PROJECTILE_SPEED,
{
    if delta >= 0 {
        assert(10_000 * delta <= 1_000_000_000_000) by (nonlinear_arith)
            requires 0 <= delta <= d, d <= 100_000_000;
        assert(10_000 * delta / (d as int) <= 10_000) by (nonlinear_arith)
            requires 0 <= delta <= d, 0 < d;
        PROJECTILE_SPEED * delta / d
    } else {
        let m = -delta;
        assert(10_000 * m <= 1_000_000_000_000) by (nonlinear_arith)
            requires 0 <= m <= d, d <= 100_000_000;
        assert(10_000 * m / (m as int + d - m) <= 10_000) by (nonlinear_arith)
            requires 0 <= m <= d, 0 < d;
        -(PROJECTILE_SPEED * m / d)
    }
}

} // verus!
