//! Collision resolution: what each colliding pair does, and the batch of
//! effects of one tick.
use vstd::prelude::*;
use rand::rngs::StdRng;
use crate::tuning::{
    SCALE, PPM, POS_LIMIT, VEL_LIMIT, RADIUS_LIMIT, METEOR_DESTROY_RADIUS, MAX_GENERATED_SPEED,
    IMPACT_TEXT_TTL, PLANET_CONTACT_DAMAGE, SHIP_DAMAGE_FACTOR, PLANET_DAMAGE_FACTOR,
};
use crate::entity::{Blueprint, Entity, Kind, Shape, Transform, Color, Label};
use crate::store::{EntityStore, lookup, lemma_lookup_at, vec_has};
use crate::collision::{Collision, is_collision, collision_set};
use crate::random::{gen_safe_range, draw_below, drawn_between};
use crate::state::Outcome;

verus! {

/// Something the player should hear about.
#[derive(Clone, Copy, Debug, PartialEq, Eq, Structural)]
pub enum Event {
    ShipHit,
    PlanetHit,
    MeteorExploded,
    MeteorBounce,
    Shot,
    OverpopulationWarning,
    GameOver(Outcome),
}

/// Largest magnitude of a drawn child velocity.
pub const DRAW_LIMIT: i64 = 1_000_000_000_000;

pub open spec fn meteor_paint() -> Color {
    Color { r: 224, g: 154, b: 72, a: 255 }
}

pub open spec fn alert_paint() -> Color {
    Color { r: 255, g: 51, b: 51, a: 255 }
}

/// The colour of meteors.
pub fn meteor_color() -> (r: Color)
    ensures
        r == meteor_paint(),
{
    Color { r: 224, g: 154, b: 72, a: 255 }
}

/// The colour of alarming texts.
pub fn alert_color() -> (r: Color)
    ensures
        r == alert_paint(),
{
    Color { r: 255, g: 51, b: 51, a: 255 }
}

/// Damage to the craft from a meteor of radius `r`: proportional to its area.
pub open spec fn ship_damage_of(r: int) -> int {
    SHIP_DAMAGE_FACTOR * (r * r)
}

/// Casualties on the planet from a meteor of radius `r`: proportional to its
/// area, with a steeper factor than the craft's damage.
pub open spec fn planet_damage_of(r: int) -> int {
    PLANET_DAMAGE_FACTOR * (r * r)
}

/// Craft damage of a meteor of the given radius.
pub fn radius_to_ship_damage(radius: i64) -> (d: u64)
    requires
        0 <= radius <= RADIUS_LIMIT,
    ensures
        d == ship_damage_of(radius as int),
{
    let r = radius as u64;
    assert(r * r <= 1_000_000_000_000) by (nonlinear_arith)
        requires r <= 1_000_000;
    SHIP_DAMAGE_FACTOR * (r * r)
}

/// Planet casualties of a meteor of the given radius.
pub fn radius_to_earth_damage(radius: i64) -> (d: u64)
    requires
        0 <= radius <= RADIUS_LIMIT,
    ensures
        d == planet_damage_of(radius as int),
{
    let r = radius as u64;
    assert(r * r <= 1_000_000_000_000) by (nonlinear_arith)
        requires r <= 1_000_000;
    PLANET_DAMAGE_FACTOR * (r * r)
}

/// A larger meteor does strictly more damage, to the planet and to the craft.
pub proof fn lemma_damage_monotone(r1: int, r2: int)
    requires
        0 <= r1 < r2,
    ensures
        planet_damage_of(r1) < planet_damage_of(r2),
        ship_damage_of(r1) < ship_damage_of(r2),
{
    assert(r1 * r1 < r2 * r2) by (nonlinear_arith)
        requires 0 <= r1 < r2;
}

/// Division rounding toward zero, by a positive divisor.
pub open spec fn quot(n: int, d: int) -> int {
    if n >= 0 { n / d } else { -((-n) / d) }
}

fn quot_exec(n: i64, d: i64) -> (r: i64)
    requires
        d > 0,
        n > i64::MIN,
    ensures
        r == quot(n as int, d as int),
        -n <= r <= n || n <= r <= -n,
{
    if n >= 0 {
        assert(n / d <= n) by (nonlinear_arith) requires n >= 0, d > 0;
        n / d
    } else {
        let m = -n;
        assert(m / d <= m) by (nonlinear_arith) requires m >= 0, d > 0;
        -(m / d)
    }
}

pub open spec fn abs_spec(v: int) -> int {
    if v < 0 { -v } else { v }
}

/// Minus one for a negative value, plus one otherwise.
pub open spec fn sign_of(v: int) -> int {
    if v < 0 { -1 } else { 1 }
}

/// A child's speed on one axis: the drawn magnitude `v`, capped, with the
/// sign of the drawn speed on the other axis `w`.
pub open spec fn capped(v: int, w: int) -> int {
    let m = if abs_spec(v) < MAX_GENERATED_SPEED { abs_spec(v) } else { MAX_GENERATED_SPEED as int };
    m * sign_of(w)
}

fn capped_exec(v: i64, w: i64) -> (r: i64)
    requires
        -DRAW_LIMIT <= v <= DRAW_LIMIT,
    ensures
        r == capped(v as int, w as int),
        -MAX_GENERATED_SPEED <= r <= MAX_GENERATED_SPEED,
{
    let a = if v < 0 { -v } else { v };
    let m = if a < MAX_GENERATED_SPEED { a } else { MAX_GENERATED_SPEED };
    if w < 0 { -m } else { m }
}

/// `lo < |p| < hi`: clear of the border band.
pub open spec fn in_band(p: int, lo: int, hi: int) -> bool {
    lo < abs_spec(p) < hi
}

/// A meteor born from a collision at `(x, y)`, with drawn speeds `(vx, vy)`.
pub open spec fn child_meteor(x: i64, y: i64, vx: int, vy: int, radius: int) -> Blueprint {
    Blueprint {
        transform: Transform {
            pos_x: x,
            pos_y: y,
            vel_x: capped(vx, vy) as i64,
            vel_y: capped(vy, vx) as i64,
            acc_x: 0,
            acc_y: 0,
        },
        kind: Kind::Meteor,
        shape: Shape::Circle { radius: radius as i64, color: meteor_paint() },
        ttl: None,
        collidable: true,
    }
}

fn make_child(x: i64, y: i64, vx: i64, vy: i64, radius: i64) -> (r: Blueprint)
    requires
        -POS_LIMIT <= x <= POS_LIMIT,
        -POS_LIMIT <= y <= POS_LIMIT,
        -DRAW_LIMIT <= vx <= DRAW_LIMIT,
        -DRAW_LIMIT <= vy <= DRAW_LIMIT,
        0 < radius <= RADIUS_LIMIT,
    ensures
        r == child_meteor(x, y, vx as int, vy as int, radius as int),
        r.wf(),
{
    Blueprint {
        transform: Transform {
            pos_x: x,
            pos_y: y,
            vel_x: capped_exec(vx, vy),
            vel_y: capped_exec(vy, vx),
            acc_x: 0,
            acc_y: 0,
        },
        kind: Kind::Meteor,
        shape: Shape::Circle { radius, color: meteor_color() },
        ttl: None,
        collidable: true,
    }
}

/// The floating readout of an impact at `(x, y)` that killed `amount`,
/// placed a tenth of the world to the left and `text_drop` (one line of its
/// text, in world units) above.
pub open spec fn impact_text(x: int, y: int, amount: u64, text_drop: i64) -> Blueprint {
    Blueprint {
        transform: Transform {
            pos_x: crate::physics::clamp_spec(x - 100_000, POS_LIMIT as int) as i64,
            pos_y: crate::physics::clamp_spec(y - text_drop, POS_LIMIT as int) as i64,
            vel_x: 0,
            vel_y: -10i64,
            acc_x: 0,
            acc_y: 0,
        },
        kind: Kind::UI,
        shape: Shape::Text { label: Label::Impact(amount), size: 13, color: alert_paint() },
        ttl: Some(IMPACT_TEXT_TTL),
        collidable: false,
    }
}

fn make_impact_text(x: i64, y: i64, amount: u64, text_drop: i64) -> (r: Blueprint)
    requires
        0 <= text_drop <= 100 * SCALE,
        -POS_LIMIT <= x <= POS_LIMIT,
        -POS_LIMIT <= y <= POS_LIMIT,
    ensures
        r == impact_text(x as int, y as int, amount, text_drop),
        r.wf(),
{
    Blueprint {
        transform: Transform {
            pos_x: crate::physics::clamp(x - 100_000, POS_LIMIT),
            pos_y: crate::physics::clamp(y - text_drop, POS_LIMIT),
            vel_x: 0,
            vel_y: -10,
            acc_x: 0,
            acc_y: 0,
        },
        kind: Kind::UI,
        shape: Shape::Text { label: Label::Impact(amount), size: 13, color: alert_color() },
        ttl: Some(IMPACT_TEXT_TTL),
        collidable: false,
    }
}

/// Random values one colliding pair may consume.
#[derive(Clone, Copy, Debug, PartialEq, Eq, Structural)]
pub struct Draws {
    /// Radius ratio of a meteor's child, in parts per million.
    pub ratio: i64,
    pub v1x: i64,
    pub v1y: i64,
    pub v2x: i64,
    pub v2y: i64,
}

pub open spec fn draws_bounded(d: Draws) -> bool {
    &&& 0 <= d.ratio <= PPM
    &&& -DRAW_LIMIT <= d.v1x <= DRAW_LIMIT
    &&& -DRAW_LIMIT <= d.v1y <= DRAW_LIMIT
    &&& -DRAW_LIMIT <= d.v2x <= DRAW_LIMIT
    &&& -DRAW_LIMIT <= d.v2y <= DRAW_LIMIT
}

/// The two kinds, in either order.
pub open spec fn kinds_are(a: Blueprint, b: Blueprint, k1: Kind, k2: Kind) -> bool {
    (a.kind == k1 && b.kind == k2) || (a.kind == k2 && b.kind == k1)
}

/// What one colliding pair does.
#[derive(Clone, Copy, Debug, PartialEq, Eq, Structural)]
pub struct PairEffect {
    pub ship_damage: u64,
    pub population_damage: u64,
    pub destroy_first: bool,
    pub destroy_second: bool,
    pub meteor1: Option<Blueprint>,
    pub meteor2: Option<Blueprint>,
    pub text: Option<Blueprint>,
    pub event: Option<Event>,
}

pub open spec fn no_effect() -> PairEffect {
    PairEffect {
        ship_damage: 0,
        population_damage: 0,
        destroy_first: false,
        destroy_second: false,
        meteor1: None,
        meteor2: None,
        text: None,
        event: None,
    }
}

/// The child of a meteor hit by a projectile: radius scaled by the drawn
/// ratio; none if it is too small or too close to the border.
pub open spec fn projectile_child(m: Blueprint, d: Draws) -> Option<Blueprint> {
    let radius = m.shape.size() as int * d.ratio as int / PPM as int;
    let t = m.transform;
    if radius > METEOR_DESTROY_RADIUS && in_band(t.pos_x as int, 20_000, 980_000)
        && in_band(t.pos_y as int, 20_000, 980_000) {
        Some(child_meteor(t.pos_x, t.pos_y, d.v1x as int, d.v1y as int, radius))
    } else {
        None
    }
}

/// The first child of two colliding meteors: seven tenths of the first's
/// radius; none if too small or too close to the border.
pub open spec fn bounce_child_first(a: Blueprint, d: Draws) -> Option<Blueprint> {
    let radius = a.shape.size() * 7 / 10;
    let t = a.transform;
    if radius > METEOR_DESTROY_RADIUS && in_band(t.pos_x as int, 10_000, 990_000)
        && in_band(t.pos_y as int, 10_000, 990_000) {
        Some(child_meteor(t.pos_x, t.pos_y, d.v1x as int, d.v1y as int, radius))
    } else {
        None
    }
}

/// The second child of two colliding meteors: seven tenths of the second's
/// radius, always spawned.
pub open spec fn bounce_child_second(b: Blueprint, d: Draws) -> Blueprint {
    child_meteor(b.transform.pos_x, b.transform.pos_y, d.v2x as int, d.v2y as int, b.shape.size() * 7 / 10)
}

pub open spec fn min_u64(a: u64, b: u64) -> u64 {
    if a < b { a } else { b }
}

/// What the pair `(a, b)` does, with the given draws, on a planet of
/// population `pop`, by the unordered pair of their kinds; `text_drop` is the
/// height of an impact readout's line in world units.
pub open spec fn pair_effect(a: Blueprint, b: Blueprint, d: Draws, pop: u64, text_drop: i64) -> PairEffect {
    if kinds_are(a, b, Kind::Ship, Kind::Planet) {
        PairEffect { ship_damage: PLANET_CONTACT_DAMAGE, ..no_effect() }
    } else if kinds_are(a, b, Kind::Ship, Kind::Meteor) {
        let m = if a.kind == Kind::Meteor { a } else { b };
        PairEffect {
            ship_damage: ship_damage_of(m.shape.size() as int) as u64,
            destroy_first: a.kind == Kind::Meteor,
            destroy_second: b.kind == Kind::Meteor,
            event: Some(Event::ShipHit),
            ..no_effect()
        }
    } else if kinds_are(a, b, Kind::Planet, Kind::Meteor) {
        let m = if a.kind == Kind::Meteor { a } else { b };
        let dmg = planet_damage_of(m.shape.size() as int) as u64;
        let shown = min_u64(pop, dmg);
        PairEffect {
            population_damage: dmg,
            destroy_first: a.kind == Kind::Meteor,
            destroy_second: b.kind == Kind::Meteor,
            text: if shown > 0 {
                Some(impact_text(m.transform.pos_x as int, m.transform.pos_y as int, shown, text_drop))
            } else {
                None
            },
            event: Some(Event::PlanetHit),
            ..no_effect()
        }
    } else if kinds_are(a, b, Kind::Planet, Kind::Projectile) {
        PairEffect {
            destroy_first: a.kind == Kind::Projectile,
            destroy_second: b.kind == Kind::Projectile,
            ..no_effect()
        }
    } else if kinds_are(a, b, Kind::Meteor, Kind::Projectile) {
        let m = if a.kind == Kind::Meteor { a } else { b };
        PairEffect {
            destroy_first: true,
            destroy_second: true,
            meteor1: projectile_child(m, d),
            event: Some(Event::MeteorExploded),
            ..no_effect()
        }
    } else if a.kind == Kind::Meteor && b.kind == Kind::Meteor {
        PairEffect {
            destroy_first: true,
            destroy_second: true,
            meteor1: bounce_child_first(a, d),
            meteor2: Some(bounce_child_second(b, d)),
            event: Some(Event::MeteorBounce),
            ..no_effect()
        }
    } else {
        no_effect()
    }
}

/// Meteors are at least as large as the destroy radius.
pub open spec fn meteor_ready(b: Blueprint) -> bool {
    b.kind == Kind::Meteor ==> b.shape.size() >= METEOR_DESTROY_RADIUS
}

pub open spec fn opt_wf(o: Option<Blueprint>) -> bool {
    match o {
        Some(b) => b.wf(),
        None => true,
    }
}

/// The effect of one colliding pair.
pub fn resolve_pair(a: &Blueprint, b: &Blueprint, d: &Draws, pop: u64, text_drop: i64) -> (r: PairEffect)
    requires
        0 <= text_drop <= 100 * SCALE,
        a.wf(),
        b.wf(),
        meteor_ready(*a),
        meteor_ready(*b),
        draws_bounded(*d),
    ensures
        r == pair_effect(*a, *b, *d, pop, text_drop),
        opt_wf(r.meteor1),
        opt_wf(r.meteor2),
        opt_wf(r.text),
{
    let none = PairEffect {
        ship_damage: 0,
        population_damage: 0,
        destroy_first: false,
        destroy_second: false,
        meteor1: None,
        meteor2: None,
        text: None,
        event: None,
    };
    let ka = a.kind;
    let kb = b.kind;
    if (ka == Kind::Ship && kb == Kind::Planet) || (ka == Kind::Planet && kb == Kind::Ship) {
        PairEffect { ship_damage: PLANET_CONTACT_DAMAGE, ..none }
    } else if (ka == Kind::Ship && kb == Kind::Meteor) || (ka == Kind::Meteor && kb == Kind::Ship) {
        let m = if ka == Kind::Meteor { a } else { b };
        PairEffect {
            ship_damage: radius_to_ship_damage(m.size()),
            destroy_first: ka == Kind::Meteor,
            destroy_second: kb == Kind::Meteor,
            event: Some(Event::ShipHit),
            ..none
        }
    } else if (ka == Kind::Planet && kb == Kind::Meteor) || (ka == Kind::Meteor && kb == Kind::Planet) {
        let m = if ka == Kind::Meteor { a } else { b };
        let dmg = radius_to_earth_damage(m.size());
        let shown = if pop < dmg { pop } else { dmg };
        let text = if shown > 0 {
            Some(make_impact_text(m.transform.pos_x, m.transform.pos_y, shown, text_drop))
        } else {
            None
        };
        PairEffect {
            population_damage: dmg,
            destroy_first: ka == Kind::Meteor,
            destroy_second: kb == Kind::Meteor,
            text,
            event: Some(Event::PlanetHit),
            ..none
        }
    } else if (ka == Kind::Planet && kb == Kind::Projectile) || (ka == Kind::Projectile && kb == Kind::Planet) {
        PairEffect {
            destroy_first: ka == Kind::Projectile,
            destroy_second: kb == Kind::Projectile,
            ..none
        }
    } else if (ka == Kind::Meteor && kb == Kind::Projectile) || (ka == Kind::Projectile && kb == Kind::Meteor) {
        let m = if ka == Kind::Meteor { a } else { b };
        let r = m.size();
        assert(r * d.ratio <= 1_000_000_000_000) by (nonlinear_arith)
            requires 0 <= r <= 1_000_000, 0 <= d.ratio <= 1_000_000;
        assert(r * d.ratio / 1_000_000 <= r) by (nonlinear_arith)
            requires 0 <= r, 0 <= d.ratio <= 1_000_000;
        let radius = r * d.ratio / PPM;
        let t = m.transform;
        let child = if radius > METEOR_DESTROY_RADIUS && in_band_exec(t.pos_x, 20_000, 980_000)
            && in_band_exec(t.pos_y, 20_000, 980_000) {
            Some(make_child(t.pos_x, t.pos_y, d.v1x, d.v1y, radius))
        } else {
            None
        };
        PairEffect {
            destroy_first: true,
            destroy_second: true,
            meteor1: child,
            event: Some(Event::MeteorExploded),
            ..none
        }
    } else if ka == Kind::Meteor && kb == Kind::Meteor {
        let ra = a.size() * 7 / 10;
        let ta = a.transform;
        let first = if ra > METEOR_DESTROY_RADIUS && in_band_exec(ta.pos_x, 10_000, 990_000)
            && in_band_exec(ta.pos_y, 10_000, 990_000) {
            Some(make_child(ta.pos_x, ta.pos_y, d.v1x, d.v1y, ra))
        } else {
            None
        };
        let tb = b.transform;
        let second = make_child(tb.pos_x, tb.pos_y, d.v2x, d.v2y, b.size() * 7 / 10);
        PairEffect {
            destroy_first: true,
            destroy_second: true,
            meteor1: first,
            meteor2: Some(second),
            event: Some(Event::MeteorBounce),
            ..none
        }
    } else {
        none
    }
}

fn in_band_exec(p: i64, lo: i64, hi: i64) -> (r: bool)
    requires
        -POS_LIMIT <= p <= POS_LIMIT,
    ensures
        r == in_band(p as int, lo as int, hi as int),
{
    let a = if p < 0 { -p } else { p };
    lo < a && a < hi
}

/// One fitting draw for each pair of `cs`.
pub open spec fn all_draws_fit(s: Seq<Entity>, cs: Seq<Collision>, ds: Seq<Draws>) -> bool {
    &&& ds.len() == cs.len()
    &&& forall|k: int| 0 <= k < ds.len() ==> draws_fit(
        lookup(s, cs[k].first).unwrap().body,
        lookup(s, cs[k].second).unwrap().body,
        #[trigger] ds[k])
}

/// The draws a colliding pair consumes, each from the range the rules give:
/// for a meteor hit by a projectile, a radius ratio from 0.2 up to 0.5 and
/// speeds between the reversed speed and the reversed speed divided by the
/// ratio; for two meteors, speeds between the first's reversed speed and the
/// reversed speed of each divided by the first's share of the summed radii.
pub open spec fn draws_fit(a: Blueprint, b: Blueprint, d: Draws) -> bool {
    if kinds_are(a, b, Kind::Meteor, Kind::Projectile) {
        let t = if a.kind == Kind::Meteor { a.transform } else { b.transform };
        &&& 200_000 <= d.ratio < 500_000
        &&& drawn_between(-t.vel_x, quot(-t.vel_x * PPM, d.ratio as int), d.v1x as int)
        &&& drawn_between(-t.vel_y, quot(-t.vel_y * PPM, d.ratio as int), d.v1y as int)
        &&& d.v2x == 0 && d.v2y == 0
    } else if a.kind == Kind::Meteor && b.kind == Kind::Meteor {
        let sum = a.shape.size() + b.shape.size();
        let r1 = a.shape.size() as int;
        let ta = a.transform;
        let tb = b.transform;
        &&& d.ratio == 0
        &&& drawn_between(-ta.vel_x, quot(-ta.vel_x * sum, r1), d.v1x as int)
        &&& drawn_between(-ta.vel_y, quot(-ta.vel_y * sum, r1), d.v1y as int)
        &&& drawn_between(-ta.vel_x, quot(-tb.vel_x * sum, r1), d.v2x as int)
        &&& drawn_between(-ta.vel_y, quot(-tb.vel_y * sum, r1), d.v2y as int)
    } else {
        d == Draws { ratio: 0, v1x: 0, v1y: 0, v2x: 0, v2y: 0 }
    }
}

/// A speed divided by a ratio: `quot(-v * num, den)`, with its bound.
fn scaled_reverse(v: i64, num: i64, den: i64) -> (r: i64)
    requires
        -VEL_LIMIT <= v <= VEL_LIMIT,
        0 <= num <= 2 * RADIUS_LIMIT,
        0 < den,
    ensures
        r == quot(-v * num, den as int),
        -DRAW_LIMIT <= r <= DRAW_LIMIT,
{
    let nv = -v;
    assert(-200_000_000_000 <= nv * num <= 200_000_000_000) by (nonlinear_arith)
        requires -100_000 <= nv <= 100_000, 0 <= num <= 2_000_000;
    quot_exec(nv * num, den)
}

/// Draws what the pair `(a, b)` consumes.
pub fn draw_for_pair(rng: &mut StdRng, a: &Blueprint, b: &Blueprint) -> (d: Draws)
    requires
        a.wf(),
        b.wf(),
        meteor_ready(*a),
        meteor_ready(*b),
    ensures
        draws_fit(*a, *b, d),
        draws_bounded(d),
{
    let ka = a.kind;
    let kb = b.kind;
    if (ka == Kind::Meteor && kb == Kind::Projectile) || (ka == Kind::Projectile && kb == Kind::Meteor) {
        let t = if ka == Kind::Meteor { a.transform } else { b.transform };
        let ratio = draw_below(rng, 200_000, 500_000);
        let v1x = gen_safe_range(rng, -t.vel_x, scaled_reverse(t.vel_x, PPM, ratio));
        let v1y = gen_safe_range(rng, -t.vel_y, scaled_reverse(t.vel_y, PPM, ratio));
        Draws { ratio, v1x, v1y, v2x: 0, v2y: 0 }
    } else if ka == Kind::Meteor && kb == Kind::Meteor {
        let sum = a.size() + b.size();
        let r1 = a.size();
        let ta = a.transform;
        let tb = b.transform;
        let v1x = gen_safe_range(rng, -ta.vel_x, scaled_reverse(ta.vel_x, sum, r1));
        let v1y = gen_safe_range(rng, -ta.vel_y, scaled_reverse(ta.vel_y, sum, r1));
        let v2x = gen_safe_range(rng, -ta.vel_x, scaled_reverse(tb.vel_x, sum, r1));
        let v2y = gen_safe_range(rng, -ta.vel_y, scaled_reverse(tb.vel_y, sum, r1));
        Draws { ratio: 0, v1x, v1y, v2x, v2y }
    } else {
        Draws { ratio: 0, v1x: 0, v1y: 0, v2x: 0, v2y: 0 }
    }
}

/// The accumulated effects of a batch of colliding pairs.
pub struct ResolutionModel {
    pub ship_damage: u64,
    pub population_damage: u64,
    pub destroyed: Set<u64>,
    pub created: Seq<Blueprint>,
    pub events: Seq<Event>,
}

/// `a + b`, or the largest `u64` if that overflows.
pub open spec fn sat_add(a: u64, b: u64) -> u64 {
    if a + b > u64::MAX { u64::MAX } else { (a + b) as u64 }
}

pub open spec fn opt_seq<A>(o: Option<A>) -> Seq<A> {
    match o {
        Some(x) => seq![x],
        None => Seq::empty(),
    }
}

/// The identifiers a pair's effect destroys.
pub open spec fn destroyed_by(c: Collision, e: PairEffect) -> Set<u64> {
    let f = if e.destroy_first { set![c.first] } else { Set::empty() };
    let s = if e.destroy_second { set![c.second] } else { Set::empty() };
    f.union(s)
}

/// Adds one pair's effect to a batch: damage adds up (saturating), the
/// destroyed set grows, spawned entities and events are appended.
pub open spec fn absorb(m: ResolutionModel, c: Collision, e: PairEffect) -> ResolutionModel {
    ResolutionModel {
        ship_damage: sat_add(m.ship_damage, e.ship_damage),
        population_damage: sat_add(m.population_damage, e.population_damage),
        destroyed: m.destroyed.union(destroyed_by(c, e)),
        created: m.created + opt_seq(e.meteor1) + opt_seq(e.meteor2) + opt_seq(e.text),
        events: m.events + opt_seq(e.event),
    }
}

/// The effect of the `k`-th pair of `cs` on the entities of `s`.
pub open spec fn effect_at(s: Seq<Entity>, cs: Seq<Collision>, ds: Seq<Draws>, pop: u64, text_drop: i64, k: int) -> PairEffect {
    pair_effect(lookup(s, cs[k].first).unwrap().body, lookup(s, cs[k].second).unwrap().body, ds[k], pop, text_drop)
}

/// The batch of the first `n` pairs of `cs`.
pub open spec fn resolved(s: Seq<Entity>, cs: Seq<Collision>, ds: Seq<Draws>, pop: u64, text_drop: i64, n: nat) -> ResolutionModel
    decreases n,
{
    if n == 0 {
        ResolutionModel {
            ship_damage: 0,
            population_damage: 0,
            destroyed: Set::empty(),
            created: Seq::empty(),
            events: Seq::empty(),
        }
    } else {
        absorb(resolved(s, cs, ds, pop, text_drop, (n - 1) as nat), cs[n - 1], effect_at(s, cs, ds, pop, text_drop, n - 1))
    }
}

/// The effects of one tick's collisions, ready to apply to the store.
pub struct Resolution {
    pub ship_damage: u64,
    pub population_damage: u64,
    /// Each destroyed identifier once.
    pub destroyed: Vec<u64>,
    pub created: Vec<Blueprint>,
    pub events: Vec<Event>,
}

impl Resolution {
    /// This batch is `m`, with the destroyed set listed without repeats.
    pub open spec fn models(&self, m: ResolutionModel) -> bool {
        &&& self.ship_damage == m.ship_damage
        &&& self.population_damage == m.population_damage
        &&& self.destroyed@.no_duplicates()
        &&& forall|x: u64| #[trigger] self.destroyed@.contains(x) <==> m.destroyed.contains(x)
        &&& self.created@ == m.created
        &&& self.events@ == m.events
    }
}

pub open spec fn all_created_wf(v: Seq<Blueprint>) -> bool {
    forall|i: int| 0 <= i < v.len() ==> #[trigger] v[i].wf()
}

pub open spec fn all_meteors_ready(s: Seq<Entity>) -> bool {
    forall|i: int| 0 <= i < s.len() ==> meteor_ready(#[trigger] s[i].body)
}

fn sat_add_exec(a: u64, b: u64) -> (r: u64)
    ensures
        r == sat_add(a, b),
{
    if a > u64::MAX - b { u64::MAX } else { a + b }
}

fn push_once(v: &mut Vec<u64>, x: u64)
    requires
        old(v)@.no_duplicates(),
    ensures
        final(v)@.no_duplicates(),
        forall|y: u64| #[trigger] final(v)@.contains(y) <==> old(v)@.contains(y) || y == x,
{
    if !vec_has(v, x) {
        v.push(x);
        proof {
            assert(final(v)@.last() == x);
            assert forall|y: u64| #[trigger] final(v)@.contains(y) <==> old(v)@.contains(y) || y == x by {
                if old(v)@.contains(y) {
                    let i = choose|i: int| 0 <= i < old(v)@.len() && old(v)@[i] == y;
                    assert(final(v)@[i] == y);
                }
            }
        }
    }
}

fn push_opt(v: &mut Vec<Blueprint>, o: Option<Blueprint>)
    requires
        all_created_wf(old(v)@),
        opt_wf(o),
    ensures
        final(v)@ == old(v)@ + opt_seq(o),
        all_created_wf(final(v)@),
{
    match o {
        Some(b) => {
            v.push(b);
            assert(final(v)@ =~= old(v)@ + seq![b]);
        },
        None => {
            assert(final(v)@ =~= old(v)@ + Seq::<Blueprint>::empty());
        },
    }
}

/// The entity of `store` with the identifier `id`, known to be live.
fn live(store: &EntityStore, id: u64) -> (e: Entity)
    requires
        store.wf(),
        lookup(store@, id) is Some,
    ensures
        e == lookup(store@, id).unwrap(),
{
    store.get(id).unwrap()
}

proof fn lemma_pair_live(s: Seq<Entity>, c: Collision)
    requires
        is_collision(s, c),
        crate::store::ids_ascending(s),
        crate::store::all_wf(s),
        all_meteors_ready(s),
    ensures
        lookup(s, c.first) is Some,
        lookup(s, c.second) is Some,
        lookup(s, c.first).unwrap().wf(),
        lookup(s, c.second).unwrap().wf(),
        meteor_ready(lookup(s, c.first).unwrap().body),
        meteor_ready(lookup(s, c.second).unwrap().body),
{
    let (i, j) = choose|i: int, j: int| 0 <= i < j < s.len() && crate::collision::overlaps(s[i].body, s[j].body)
        && c == #[trigger] crate::collision::pair_of(s, i, j);
    lemma_lookup_at(s, i);
    lemma_lookup_at(s, j);
    assert(s[i].wf() && s[j].wf());
    assert(meteor_ready(s[i].body) && meteor_ready(s[j].body));
}

/// The batch of effects of the pairs `cs`, with the given draws, on a planet
/// of population `pop`.
pub fn resolve_with(store: &EntityStore, cs: &Vec<Collision>, ds: &Vec<Draws>, pop: u64, text_drop: i64) -> (r: Resolution)
    requires
        0 <= text_drop <= 100 * SCALE,
        store.wf(),
        all_meteors_ready(store@),
        cs@.len() == ds@.len(),
        forall|k: int| 0 <= k < cs@.len() ==> is_collision(store@, #[trigger] cs@[k]),
        forall|k: int| 0 <= k < ds@.len() ==> draws_bounded(#[trigger] ds@[k]),
    ensures
        r.models(resolved(store@, cs@, ds@, pop, text_drop, cs@.len())),
        all_created_wf(r.created@),
{
    let ghost s = store@;
    let mut r = Resolution {
        ship_damage: 0,
        population_damage: 0,
        destroyed: Vec::new(),
        created: Vec::new(),
        events: Vec::new(),
    };
    assert(r.models(resolved(s, cs@, ds@, pop, text_drop, 0)));
    let mut k: usize = 0;
    while k < cs.len()
        invariant
            s == store@,
            store.wf(),
            all_meteors_ready(s),
            cs@.len() == ds@.len(),
            forall|k: int| 0 <= k < cs@.len() ==> is_collision(s, #[trigger] cs@[k]),
            forall|k: int| 0 <= k < ds@.len() ==> draws_bounded(#[trigger] ds@[k]),
            k <= cs@.len(),
            r.models(resolved(s, cs@, ds@, pop, text_drop, k as nat)),
            0 <= text_drop <= 100 * SCALE,
            all_created_wf(r.created@),
        decreases cs@.len() - k,
    {
        let c = cs[k];
        proof { lemma_pair_live(s, c); }
        let a = live(store, c.first);
        let b = live(store, c.second);
        let d = ds[k];
        let e = resolve_pair(&a.body, &b.body, &d, pop, text_drop);
        let ghost m0 = resolved(s, cs@, ds@, pop, text_drop, k as nat);
        let ghost ev0 = r.events@;
        assert(e == effect_at(s, cs@, ds@, pop, text_drop, k as int));
        r.ship_damage = sat_add_exec(r.ship_damage, e.ship_damage);
        r.population_damage = sat_add_exec(r.population_damage, e.population_damage);
        if e.destroy_first {
            push_once(&mut r.destroyed, c.first);
        }
        if e.destroy_second {
            push_once(&mut r.destroyed, c.second);
        }
        push_opt(&mut r.created, e.meteor1);
        push_opt(&mut r.created, e.meteor2);
        push_opt(&mut r.created, e.text);
        match e.event {
            Some(ev) => {
                r.events.push(ev);
                assert(r.events@ =~= ev0 + opt_seq(e.event));
            },
            None => {
                assert(r.events@ =~= ev0 + opt_seq(e.event));
            },
        }
        proof {
            let m1 = resolved(s, cs@, ds@, pop, text_drop, (k + 1) as nat);
            assert(m1 == absorb(m0, c, e));
            assert(m1.created =~= m0.created + opt_seq(e.meteor1) + opt_seq(e.meteor2) + opt_seq(e.text));
            assert forall|x: u64| #[trigger] r.destroyed@.contains(x) <==> m1.destroyed.contains(x) by {}
        }
        k += 1;
    }
    r
}

/// Resolves one tick's colliding pairs, drawing what each pair consumes from
/// `rng`. The result is the batch for some draws that fit the pairs.
pub fn process_collisions(store: &EntityStore, cs: &Vec<Collision>, rng: &mut StdRng, pop: u64, text_drop: i64) -> (r: Resolution)
    requires
        0 <= text_drop <= 100 * SCALE,
        store.wf(),
        all_meteors_ready(store@),
        forall|k: int| 0 <= k < cs@.len() ==> is_collision(store@, #[trigger] cs@[k]),
    ensures
        exists|ds: Seq<Draws>| #[trigger] all_draws_fit(store@, cs@, ds)
            && r.models(resolved(store@, cs@, ds, pop, text_drop, cs@.len())),
        all_created_wf(r.created@),
{
    let ghost s = store@;
    let mut ds: Vec<Draws> = Vec::new();
    let mut k: usize = 0;
    while k < cs.len()
        invariant
            s == store@,
            store.wf(),
            all_meteors_ready(s),
            forall|k: int| 0 <= k < cs@.len() ==> is_collision(s, #[trigger] cs@[k]),
            k <= cs@.len(),
            ds@.len() == k,
            forall|j: int| 0 <= j < k ==> draws_fit(
                lookup(s, cs@[j].first).unwrap().body,
                lookup(s, cs@[j].second).unwrap().body,
                #[trigger] ds@[j]),
            forall|j: int| 0 <= j < k ==> draws_bounded(#[trigger] ds@[j]),
        decreases cs@.len() - k,
    {
        let c = cs[k];
        proof { lemma_pair_live(s, c); }
        let a = live(store, c.first);
        let b = live(store, c.second);
        let d = draw_for_pair(rng, &a.body, &b.body);
        ds.push(d);
        k += 1;
    }
    let r = resolve_with(store, cs, &ds, pop, text_drop);
    assert(all_draws_fit(s, cs@, ds@));
    r
}

/// An identifier is in a batch's destroyed set exactly when some pair of the
/// batch destroys it.
pub proof fn lemma_resolved_destroyed(s: Seq<Entity>, cs: Seq<Collision>, ds: Seq<Draws>, pop: u64, text_drop: i64, n: nat, id: u64)
    requires
        n <= cs.len(),
    ensures
        resolved(s, cs, ds, pop, text_drop, n).destroyed.contains(id) <==> exists|k: int| 0 <= k < n
            && #[trigger] destroyed_by(cs[k], effect_at(s, cs, ds, pop, text_drop, k)).contains(id),
    decreases n,
{
    if n > 0 {
        lemma_resolved_destroyed(s, cs, ds, pop, text_drop, (n - 1) as nat, id);
        let last = (n - 1) as int;
        if destroyed_by(cs[last], effect_at(s, cs, ds, pop, text_drop, last)).contains(id) {
            assert(resolved(s, cs, ds, pop, text_drop, n).destroyed.contains(id));
        }
    }
}

/// However many pairs of a batch destroy an entity (one or more), the batch's
/// list of destroyed identifiers holds it exactly once, so the entity is
/// removed once.
pub proof fn lemma_destroyed_once(s: Seq<Entity>, cs: Seq<Collision>, ds: Seq<Draws>, pop: u64, text_drop: i64, r: Resolution, id: u64)
    requires
        r.models(resolved(s, cs, ds, pop, text_drop, cs.len())),
        exists|k: int| 0 <= k < cs.len() && #[trigger] destroyed_by(cs[k], effect_at(s, cs, ds, pop, text_drop, k)).contains(id),
    ensures
        r.destroyed@.to_multiset().count(id) == 1,
{
    broadcast use vstd::seq_lib::to_multiset_contains;
    lemma_resolved_destroyed(s, cs, ds, pop, text_drop, cs.len(), id);
    assert(r.destroyed@.contains(id));
    r.destroyed@.lemma_multiset_has_no_duplicates();
}

/// The given damage totals, destroyed identifiers and spawned entities are
/// those of the batch of all collisions among `s`, on a planet of population
/// `pop` with readout lines `text_drop` high, for some fitting draws.
pub open spec fn batch_of(
    s: Seq<Entity>,
    pop: u64,
    text_drop: i64,
    ship_damage: u64,
    population_damage: u64,
    destroyed: Seq<u64>,
    created: Seq<Blueprint>,
) -> bool {
    exists|cs: Seq<Collision>, ds: Seq<Draws>| #![trigger all_draws_fit(s, cs, ds)] {
        &&& collision_set(s, cs)
        &&& all_draws_fit(s, cs, ds)
        &&& ship_damage == resolved(s, cs, ds, pop, text_drop, cs.len()).ship_damage
        &&& population_damage == resolved(s, cs, ds, pop, text_drop, cs.len()).population_damage
        &&& forall|x: u64| #[trigger] destroyed.contains(x) <==> resolved(s, cs, ds, pop, text_drop, cs.len()).destroyed.contains(x)
        &&& created == resolved(s, cs, ds, pop, text_drop, cs.len()).created
    }
}

/// A batch's events are collision sounds, never the end of the game.
pub proof fn lemma_no_game_over(s: Seq<Entity>, cs: Seq<Collision>, ds: Seq<Draws>, pop: u64, text_drop: i64, n: nat)
    requires
        n <= cs.len(),
    ensures
        forall|i: int| 0 <= i < resolved(s, cs, ds, pop, text_drop, n).events.len()
            ==> !(#[trigger] resolved(s, cs, ds, pop, text_drop, n).events[i] is GameOver),
    decreases n,
{
    if n > 0 {
        lemma_no_game_over(s, cs, ds, pop, text_drop, (n - 1) as nat);
        let prev = resolved(s, cs, ds, pop, text_drop, (n - 1) as nat);
        let e = effect_at(s, cs, ds, pop, text_drop, n - 1);
        let cur = resolved(s, cs, ds, pop, text_drop, n);
        assert(cur.events == prev.events + opt_seq(e.event));
        assert forall|i: int| 0 <= i < cur.events.len() implies !(#[trigger] cur.events[i] is GameOver) by {
            if i < prev.events.len() {
                assert(cur.events[i] == prev.events[i]);
            } else {
                assert(!(e.event.unwrap() is GameOver));
            }
        }
    }
}

/// When the only overlapping pair among `s` is a meteor on the planet, the
/// batch costs exactly that meteor's casualties, does no harm to the craft,
/// and destroys exactly that meteor.
pub proof fn lemma_single_impact(
    s: Seq<Entity>,
    pop: u64,
    text_drop: i64,
    ship_damage: u64,
    population_damage: u64,
    destroyed: Seq<u64>,
    created: Seq<Blueprint>,
    i: int,
    j: int,
)
    requires
        crate::store::ids_ascending(s),
        crate::store::all_wf(s),
        batch_of(s, pop, text_drop, ship_damage, population_damage, destroyed, created),
        0 <= i < j < s.len(),
        crate::collision::overlaps(s[i].body, s[j].body),
        kinds_are(s[i].body, s[j].body, Kind::Planet, Kind::Meteor),
        forall|a: int, b: int| 0 <= a < b < s.len() && crate::collision::overlaps(s[a].body, s[b].body)
            ==> a == i && b == j,
    ensures
        ({
            let m = if s[i].body.kind == Kind::Meteor { s[i] } else { s[j] };
            &&& population_damage == planet_damage_of(m.body.shape.size() as int)
            &&& ship_damage == 0
            &&& forall|x: u64| #[trigger] destroyed.contains(x) <==> x == m.id
        }),
{
    let (cs, ds) = choose|cs: Seq<Collision>, ds: Seq<Draws>| #![trigger all_draws_fit(s, cs, ds)] {
        &&& collision_set(s, cs)
        &&& all_draws_fit(s, cs, ds)
        &&& ship_damage == resolved(s, cs, ds, pop, text_drop, cs.len()).ship_damage
        &&& population_damage == resolved(s, cs, ds, pop, text_drop, cs.len()).population_damage
        &&& forall|x: u64| #[trigger] destroyed.contains(x) <==> resolved(s, cs, ds, pop, text_drop, cs.len()).destroyed.contains(x)
        &&& created == resolved(s, cs, ds, pop, text_drop, cs.len()).created
    };
    let c = crate::collision::pair_of(s, i, j);
    assert(cs.contains(c));
    assert forall|k: int| 0 <= k < cs.len() implies #[trigger] cs[k] == c by {
        assert(is_collision(s, cs[k]));
        let (a, b) = choose|a: int, b: int| 0 <= a < b < s.len() && crate::collision::overlaps(s[a].body, s[b].body)
            && cs[k] == #[trigger] crate::collision::pair_of(s, a, b);
    }
    if cs.len() >= 2 {
        assert(cs[0] == cs[1]);
    }
    assert(cs.len() == 1);
    assert(cs[0] == c);
    lemma_lookup_at(s, i);
    lemma_lookup_at(s, j);
    let e = effect_at(s, cs, ds, pop, text_drop, 0);
    assert(e == pair_effect(s[i].body, s[j].body, ds[0], pop, text_drop));
    let m = if s[i].body.kind == Kind::Meteor { s[i] } else { s[j] };
    assert(s[i].wf() && s[j].wf());
    let r = m.body.shape.size() as int;
    assert(0 <= r * r <= 1_000_000_000_000) by (nonlinear_arith)
        requires 0 <= r <= 1_000_000;
    assert(resolved(s, cs, ds, pop, text_drop, 1) == absorb(resolved(s, cs, ds, pop, text_drop, 0), cs[0], e));
    assert forall|x: u64| #[trigger] destroyed.contains(x) <==> x == m.id by {
        assert(resolved(s, cs, ds, pop, text_drop, 1).destroyed.contains(x) <==> destroyed_by(c, e).contains(x));
    }
}

/// A batch with a craft-planet pair costs the craft at least the contact
/// damage, whatever else the batch holds.
pub proof fn lemma_contact_lethal(s: Seq<Entity>, cs: Seq<Collision>, ds: Seq<Draws>, pop: u64, text_drop: i64, n: nat, k: int)
    requires
        0 <= k < n <= cs.len(),
        kinds_are(lookup(s, cs[k].first).unwrap().body, lookup(s, cs[k].second).unwrap().body, Kind::Ship, Kind::Planet),
    ensures
        resolved(s, cs, ds, pop, text_drop, n).ship_damage >= PLANET_CONTACT_DAMAGE,
    decreases n,
{
    let prev = resolved(s, cs, ds, pop, text_drop, (n - 1) as nat);
    let e = effect_at(s, cs, ds, pop, text_drop, n - 1);
    if k < n - 1 {
        lemma_contact_lethal(s, cs, ds, pop, text_drop, (n - 1) as nat, k);
    } else {
        assert(e.ship_damage == PLANET_CONTACT_DAMAGE);
    }
    assert(resolved(s, cs, ds, pop, text_drop, n).ship_damage == sat_add(prev.ship_damage, e.ship_damage));
}

/// A batch of one pair of meteors, the first clear of the border and large
/// enough: both are destroyed, nothing is damaged, and exactly two children
/// are spawned, one at each parent's place with seven tenths of its radius.
pub proof fn lemma_two_meteors(s: Seq<Entity>, cs: Seq<Collision>, ds: Seq<Draws>, pop: u64, text_drop: i64)
    requires
        cs.len() == 1,
        lookup(s, cs[0].first) is Some,
        lookup(s, cs[0].second) is Some,
        ({
            let a = lookup(s, cs[0].first).unwrap().body;
            let b = lookup(s, cs[0].second).unwrap().body;
            &&& a.kind == Kind::Meteor
            &&& b.kind == Kind::Meteor
            &&& a.shape.size() * 7 / 10 > METEOR_DESTROY_RADIUS
            &&& in_band(a.transform.pos_x as int, 10_000, 990_000)
            &&& in_band(a.transform.pos_y as int, 10_000, 990_000)
        }),
    ensures
        ({
            let a = lookup(s, cs[0].first).unwrap().body;
            let b = lookup(s, cs[0].second).unwrap().body;
            let m = resolved(s, cs, ds, pop, text_drop, 1);
            &&& m.ship_damage == 0
            &&& m.population_damage == 0
            &&& forall|x: u64| #[trigger] m.destroyed.contains(x) <==> x == cs[0].first || x == cs[0].second
            &&& m.created == seq![
                child_meteor(a.transform.pos_x, a.transform.pos_y, ds[0].v1x as int, ds[0].v1y as int, a.shape.size() * 7 / 10),
                child_meteor(b.transform.pos_x, b.transform.pos_y, ds[0].v2x as int, ds[0].v2y as int, b.shape.size() * 7 / 10),
            ]
        }),
{
    let e = effect_at(s, cs, ds, pop, text_drop, 0);
    let m0 = resolved(s, cs, ds, pop, text_drop, 0);
    let m = resolved(s, cs, ds, pop, text_drop, 1);
    assert(m == absorb(m0, cs[0], e));
    assert(m.created =~= m0.created + opt_seq(e.meteor1) + opt_seq(e.meteor2) + opt_seq(e.text));
}

} // verus!
