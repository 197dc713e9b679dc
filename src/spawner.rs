//! Meteor generation at the world's edges, scaled by difficulty.
use vstd::prelude::*;
use rand::rngs::StdRng;
use crate::tuning::{
    SCALE, PROGRESS_FULL, METEOR_BASE_MIN_SIZE, METEOR_BASE_MAX_SIZE, METEOR_MIN_SPEED,
    METEOR_MAX_SPEED, SPAWN_INTERVAL_MS,
};
use crate::entity::{Blueprint, Kind, Shape, Transform};
use crate::physics::Direction;
use crate::random::draw_below;
use crate::resolve::{meteor_color, meteor_paint};
use crate::state::{difficulty, progress_difficulty_factor};

verus! {

/// Random values one spawned meteor consumes.
#[derive(Clone, Copy, Debug, PartialEq, Eq, Structural)]
pub struct SpawnDraws {
    pub vel_x: i64,
    pub vel_y: i64,
    /// The edge: 0 top, 1 bottom, 2 left, 3 right.
    pub edge: i64,
    /// Position along the edge.
    pub along: i64,
    pub radius: i64,
    /// Whether the speed along the edge is reversed.
    pub flip: bool,
}

/// Smallest radius drawn at this progress.
pub open spec fn min_size(progress: u64) -> int {
    METEOR_BASE_MIN_SIZE * difficulty(progress) / 1_000_000
}

/// Largest radius drawn at this progress (exclusive).
pub open spec fn max_size(progress: u64) -> int {
    METEOR_BASE_MAX_SIZE * difficulty(progress) / 1_000_000
}

/// The draws come from their ranges: speeds from `METEOR_MIN_SPEED` up to
/// `METEOR_MAX_SPEED`, an edge of four, a place along it, a radius from the
/// difficulty-scaled size range.
pub open spec fn spawn_fit(d: SpawnDraws, progress: u64) -> bool {
    &&& METEOR_MIN_SPEED <= d.vel_x < METEOR_MAX_SPEED
    &&& METEOR_MIN_SPEED <= d.vel_y < METEOR_MAX_SPEED
    &&& 0 <= d.edge < 4
    &&& 0 <= d.along < SCALE
    &&& min_size(progress) <= d.radius < max_size(progress)
}

/// The edge a draw names.
pub open spec fn edge_of(e: i64) -> Direction {
    if e == 0 { Direction::Up } else if e == 1 { Direction::Down } else if e == 2 { Direction::Left } else { Direction::Right }
}

/// The meteor the draws describe: just outside the chosen edge, moving
/// inward across it, with the speed along the edge reversed on a flip.
pub open spec fn meteor_from(d: SpawnDraws) -> Blueprint {
    let flip_x = if d.flip { -d.vel_x } else { d.vel_x as int };
    let flip_y = if d.flip { -d.vel_y } else { d.vel_y as int };
    let (px, py, vx, vy) = match edge_of(d.edge) {
        Direction::Up => (d.along as int, -d.radius, flip_x, d.vel_y as int),
        Direction::Down => (d.along as int, SCALE + d.radius, flip_x, -d.vel_y),
        Direction::Left => (-d.radius, d.along as int, d.vel_x as int, flip_y),
        Direction::Right => (SCALE + d.radius, d.along as int, -d.vel_x, flip_y),
    };
    Blueprint {
        transform: Transform {
            pos_x: px as i64,
            pos_y: py as i64,
            vel_x: vx as i64,
            vel_y: vy as i64,
            acc_x: 0,
            acc_y: 0,
        },
        kind: Kind::Meteor,
        shape: Shape::Circle { radius: d.radius, color: meteor_paint() },
        ttl: None,
        collidable: true,
    }
}

/// The meteor that fitting draws describe.
pub fn meteor_of(d: &SpawnDraws, progress: u64) -> (b: Blueprint)
    requires
        spawn_fit(*d, progress),
        progress <= PROGRESS_FULL,
    ensures
        b == meteor_from(*d),
        b.wf(),
{
    assert(max_size(progress) <= 37_500) by (nonlinear_arith)
        requires difficulty(progress) <= 2_500_000, max_size(progress) == 15_000 * difficulty(progress) / 1_000_000;
    assert(min_size(progress) >= 7_000) by (nonlinear_arith)
        requires difficulty(progress) >= 1_000_000, min_size(progress) == 7_000 * difficulty(progress) / 1_000_000;
    let flip_x = if d.flip { -d.vel_x } else { d.vel_x };
    let flip_y = if d.flip { -d.vel_y } else { d.vel_y };
    let (px, py, vx, vy) = if d.edge == 0 {
        (d.along, -d.radius, flip_x, d.vel_y)
    } else if d.edge == 1 {
        (d.along, SCALE + d.radius, flip_x, -d.vel_y)
    } else if d.edge == 2 {
        (-d.radius, d.along, d.vel_x, flip_y)
    } else {
        (SCALE + d.radius, d.along, -d.vel_x, flip_y)
    };
    Blueprint {
        transform: Transform { pos_x: px, pos_y: py, vel_x: vx, vel_y: vy, acc_x: 0, acc_y: 0 },
        kind: Kind::Meteor,
        shape: Shape::Circle { radius: d.radius, color: meteor_color() },
        ttl: None,
        collidable: true,
    }
}

/// Draws what one spawned meteor consumes.
pub fn draw_spawn(rng: &mut StdRng, progress: u64) -> (d: SpawnDraws)
    requires
        progress <= PROGRESS_FULL,
    ensures
        spawn_fit(d, progress),
{
    let f = progress_difficulty_factor(progress);
    assert(7_000 * f / 1_000_000 < 15_000 * f / 1_000_000) by (nonlinear_arith)
        requires 1_000_000 <= f <= 2_500_000;
    let vel_x = draw_below(rng, METEOR_MIN_SPEED, METEOR_MAX_SPEED);
    let vel_y = draw_below(rng, METEOR_MIN_SPEED, METEOR_MAX_SPEED);
    let edge = draw_below(rng, 0, 4);
    let along = draw_below(rng, 0, SCALE);
    let lo = (METEOR_BASE_MIN_SIZE as u64 * f / 1_000_000) as i64;
    let hi = (METEOR_BASE_MAX_SIZE as u64 * f / 1_000_000) as i64;
    let radius = draw_below(rng, lo, hi);
    let flip = draw_below(rng, 0, 2) == 1;
    SpawnDraws { vel_x, vel_y, edge, along, radius, flip }
}

/// `b` is a meteor the spawner can make at this progress: the meteor of
/// some fitting draws.
pub open spec fn spawned_meteor(b: Blueprint, progress: u64) -> bool {
    exists|d: SpawnDraws| #[trigger] spawn_fit(d, progress) && b == meteor_from(d)
}

/// A fresh meteor at the current progress.
pub fn generate_meteor(rng: &mut StdRng, progress: u64) -> (b: Blueprint)
    requires
        progress <= PROGRESS_FULL,
    ensures
        spawned_meteor(b, progress),
        b.wf(),
{
    let d = draw_spawn(rng, progress);
    let b = meteor_of(&d, progress);
    assert(spawn_fit(d, progress) && b == meteor_from(d));
    b
}

/// Time between spawns at this progress, in milliseconds: the base interval
/// divided by the difficulty factor.
pub open spec fn spawn_interval(progress: u64) -> int {
    SPAWN_INTERVAL_MS * 1_000_000 / difficulty(progress)
}

/// The spawn interval at this progress.
pub fn spawn_interval_ms(progress: u64) -> (r: u64)
    requires
        progress <= PROGRESS_FULL,
    ensures
        r == spawn_interval(progress),
        720 <= r <= 1_800,
{
    let f = progress_difficulty_factor(progress);
    assert(720 <= 1_800_000_000u64 / f <= 1_800) by (nonlinear_arith)
        requires 1_000_000 <= f <= 2_500_000;
    SPAWN_INTERVAL_MS * 1_000_000 / f
}

} // verus!
