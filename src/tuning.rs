//! Fixed-point units and the game's tuning constants.
use vstd::prelude::*;

verus! {

/// Length of one world unit (the side of the visible square).
pub const SCALE: i64 = 1_000_000;

/// Fraction denominator: one part per million.
pub const PPM: i64 = 1_000_000;

/// No entity is ever further than this from the origin on either axis.
pub const POS_LIMIT: i64 = 3_000_000;

/// World speed limit per axis, per tick.
pub const VEL_LIMIT: i64 = 100_000;

/// World acceleration limit per axis, per tick.
pub const ACC_LIMIT: i64 = 1_000;

/// Largest radius any circle may have.
pub const RADIUS_LIMIT: i64 = 1_000_000;

/// Craft control: acceleration change per tick while a direction is held.
pub const ACC_STEP: i64 = 10;

/// Craft control: largest acceleration magnitude on each axis.
pub const MAX_ACC: i64 = 50;

/// Craft control: largest speed magnitude on each axis.
pub const MAX_SPEED: i64 = 5_000;

/// Meteors below this radius are removed.
pub const METEOR_DESTROY_RADIUS: i64 = 1_000;

/// Smallest meteor radius the spawner draws, before difficulty scaling.
pub const METEOR_BASE_MIN_SIZE: i64 = 7_000;

/// Largest meteor radius the spawner draws, before difficulty scaling.
pub const METEOR_BASE_MAX_SIZE: i64 = 15_000;

/// Spawner: smallest speed per axis of a fresh meteor.
pub const METEOR_MIN_SPEED: i64 = 300;

/// Spawner: largest speed per axis of a fresh meteor (exclusive).
pub const METEOR_MAX_SPEED: i64 = 1_000;

/// Largest speed per axis given to a meteor born from a collision.
pub const MAX_GENERATED_SPEED: i64 = 1_000;

/// Base time between two meteor spawns, in milliseconds.
pub const SPAWN_INTERVAL_MS: u64 = 1_800;

/// Projectile radius.
pub const PROJECTILE_RADIUS: i64 = 1_000;

/// Projectile speed (length of its velocity, up to rounding).
pub const PROJECTILE_SPEED: i64 = 10_000;

/// Ticks a projectile lives.
pub const PROJECTILE_TTL: u64 = 50;

/// Least time between two shots, in milliseconds.
pub const SHOT_INTERVAL_MS: u64 = 150;

/// Ticks a floating impact readout lives.
pub const IMPACT_TEXT_TTL: u64 = 300;

/// Ticks the overpopulation warning text lives.
pub const WARNING_TTL: u64 = 400;

/// Least time between two overpopulation warnings, in milliseconds.
pub const WARNING_INTERVAL_MS: u64 = 30_000;

/// Starting population, in persons.
pub const POPULATION_START: u64 = 1_200_000_000;

/// Population growth per tick is `GROWTH_NUM / GROWTH_DEN`.
pub const GROWTH_NUM: u64 = 20_001;

/// See `GROWTH_NUM`.
pub const GROWTH_DEN: u64 = 20_000;

/// Population at which the planet is overpopulated (terminal).
pub const OVERPOP_LIMIT: u64 = 10_000_000_000;

/// Population above which the overpopulation warning is raised.
pub const OVERPOP_WARNING: u64 = 7_000_000_000;

/// Victory progress gained per tick, in parts per million.
pub const PROGRESS_TICK: u64 = 150;

/// Victory progress at which the game is won.
pub const PROGRESS_FULL: u64 = 1_000_000;

/// Craft health at start. One hit point is 100_000_000 health units.
pub const HEALTH_START: u64 = 10_000_000_000;

/// Damage a craft takes from touching the planet (ten times its health).
pub const PLANET_CONTACT_DAMAGE: u64 = 100_000_000_000;

/// Ship damage per squared radius unit of a meteor.
pub const SHIP_DAMAGE_FACTOR: u64 = 26;

/// Casualties (persons) per squared radius unit of a meteor.
pub const PLANET_DAMAGE_FACTOR: u64 = 13;

} // verus!
