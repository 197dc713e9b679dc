//! Population, craft health, victory progress and the game's outcome.
use vstd::prelude::*;
use crate::tuning::{
    POPULATION_START, HEALTH_START, GROWTH_NUM, GROWTH_DEN, OVERPOP_LIMIT, OVERPOP_WARNING,
    PROGRESS_TICK, PROGRESS_FULL, WARNING_INTERVAL_MS,
};

verus! {

/// How a game ended.
#[derive(Clone, Copy, Debug, PartialEq, Eq, Structural)]
pub enum Outcome {
    ShipDestroyed,
    EveryoneDead,
    OverPopulation,
    Victory,
}

/// Aggregate progress of a game.
#[derive(Clone, Copy, Debug, PartialEq, Eq, Structural)]
pub struct GameState {
    /// Persons on the planet.
    pub population: u64,
    /// Craft health; one hit point is 100_000_000 units.
    pub health: u64,
    /// Victory progress, in parts per million.
    pub progress: u64,
    /// The terminal outcome, once reached.
    pub outcome: Option<Outcome>,
}

/// `a - b`, or zero if that is negative.
pub open spec fn sat_sub(a: u64, b: u64) -> u64 {
    if a > b { (a - b) as u64 } else { 0 }
}

/// Population after one tick of compounding growth.
pub open spec fn grown(p: u64) -> u64 {
    (p as int * GROWTH_NUM as int / GROWTH_DEN as int) as u64
}

/// The outcome the counters call for, by priority: extinction, then the
/// craft's destruction, then overpopulation, then victory.
pub open spec fn judged(population: u64, health: u64, progress: u64) -> Option<Outcome> {
    if population == 0 {
        Some(Outcome::EveryoneDead)
    } else if health == 0 {
        Some(Outcome::ShipDestroyed)
    } else if population >= OVERPOP_LIMIT {
        Some(Outcome::OverPopulation)
    } else if progress >= PROGRESS_FULL {
        Some(Outcome::Victory)
    } else {
        None
    }
}

/// One tick of the state machine: once an outcome is reached nothing
/// changes; otherwise damage is taken (counters stay at least zero), the
/// population grows, progress advances (at most to full), and the outcome
/// is judged.
pub open spec fn stepped(g: GameState, ship_damage: u64, population_damage: u64) -> GameState {
    if g.outcome is Some {
        g
    } else {
        let population = grown(sat_sub(g.population, population_damage));
        let health = sat_sub(g.health, ship_damage);
        let progress = if g.progress + PROGRESS_TICK > PROGRESS_FULL {
            PROGRESS_FULL
        } else {
            (g.progress + PROGRESS_TICK) as u64
        };
        GameState { population, health, progress, outcome: judged(population, health, progress) }
    }
}

/// The state after a run of ticks, each with its (ship, population) damage.
pub open spec fn run(g: GameState, hits: Seq<(u64, u64)>) -> GameState
    decreases hits.len(),
{
    if hits.len() == 0 {
        g
    } else {
        let last = hits.last();
        stepped(run(g, hits.drop_last()), last.0, last.1)
    }
}

/// Once an outcome is reached, no run of ticks changes it.
pub proof fn lemma_terminal_stays(g: GameState, hits: Seq<(u64, u64)>)
    requires
        g.outcome is Some,
    ensures
        run(g, hits) == g,
    decreases hits.len(),
{
    if hits.len() > 0 {
        lemma_terminal_stays(g, hits.drop_last());
    }
}

impl GameState {
    pub open spec fn initial() -> GameState {
        GameState { population: POPULATION_START, health: HEALTH_START, progress: 0, outcome: None }
    }

    /// While playing, the counters are below their terminal values.
    pub open spec fn wf(&self) -> bool {
        &&& self.progress <= PROGRESS_FULL
        &&& self.outcome is None ==> {
            &&& 0 < self.population < OVERPOP_LIMIT
            &&& 0 < self.health
            &&& self.progress < PROGRESS_FULL
        }
    }

    /// The state a game starts in.
    pub fn new() -> (r: GameState)
        ensures
            r == (GameState {
                population: POPULATION_START,
                health: HEALTH_START,
                progress: 0,
                outcome: None,
            }),
            r.wf(),
    {
        GameState { population: POPULATION_START, health: HEALTH_START, progress: 0, outcome: None }
    }

    /// One tick with the given damage; returns the outcome if it was reached
    /// by this tick.
    pub fn step(&mut self, ship_damage: u64, population_damage: u64) -> (r: Option<Outcome>)
        requires
            old(self).wf(),
        ensures
            *final(self) == stepped(*old(self), ship_damage, population_damage),
            final(self).wf(),
            r == if old(self).outcome is None { final(self).outcome } else { None },
    {
        if self.outcome.is_some() {
            return None;
        }
        let left = if self.population > population_damage { self.population - population_damage } else { 0 };
        let population = left * GROWTH_NUM / GROWTH_DEN;
        let health = if self.health > ship_damage { self.health - ship_damage } else { 0 };
        let progress = if self.progress + PROGRESS_TICK > PROGRESS_FULL {
            PROGRESS_FULL
        } else {
            self.progress + PROGRESS_TICK
        };
        let outcome = if population == 0 {
            Some(Outcome::EveryoneDead)
        } else if health == 0 {
            Some(Outcome::ShipDestroyed)
        } else if population >= OVERPOP_LIMIT {
            Some(Outcome::OverPopulation)
        } else if progress >= PROGRESS_FULL {
            Some(Outcome::Victory)
        } else {
            None
        };
        *self = GameState { population, health, progress, outcome };
        outcome
    }
}

/// Difficulty factor `1 + 1.5 × progress`, in parts per million.
pub open spec fn difficulty(progress: u64) -> int {
    1_000_000 + progress as int * 3 / 2
}

/// The difficulty factor of a progress, in parts per million.
pub fn progress_difficulty_factor(progress: u64) -> (r: u64)
    requires
        progress <= PROGRESS_FULL,
    ensures
        r == difficulty(progress),
{
    1_000_000 + progress * 3 / 2
}

/// The overpopulation warning's rate limiter.
#[derive(Clone, Copy, Debug, PartialEq, Eq, Structural)]
pub struct WarningClock {
    /// Earliest time of the next warning, in milliseconds.
    pub next_ms: u64,
    /// Whether a warning may fire (re-armed when the population falls back).
    pub armed: bool,
}

/// The limiter after seeing `population` at time `now_ms`, and whether a
/// warning fires: above the threshold it fires if armed and due, then
/// disarms and moves the next due time one interval on; at or below the
/// threshold it re-arms.
pub open spec fn warning_after(w: WarningClock, population: u64, now_ms: u64) -> (WarningClock, bool) {
    if population > OVERPOP_WARNING {
        if now_ms >= w.next_ms && w.armed {
            let next = if w.next_ms + WARNING_INTERVAL_MS > u64::MAX {
                u64::MAX
            } else {
                (w.next_ms + WARNING_INTERVAL_MS) as u64
            };
            (WarningClock { next_ms: next, armed: false }, true)
        } else {
            (w, false)
        }
    } else {
        (WarningClock { armed: true, ..w }, false)
    }
}

impl WarningClock {
    pub fn new() -> (r: WarningClock)
        ensures
            r == (WarningClock { next_ms: 0, armed: true }),
    {
        WarningClock { next_ms: 0, armed: true }
    }

    /// Sees the population at time `now_ms`; returns whether a warning fires.
    pub fn observe(&mut self, population: u64, now_ms: u64) -> (fire: bool)
        ensures
            (*final(self), fire) == warning_after(*old(self), population, now_ms),
    {
        if population > OVERPOP_WARNING {
            if now_ms >= self.next_ms && self.armed {
                self.next_ms = if self.next_ms > u64::MAX - WARNING_INTERVAL_MS {
                    u64::MAX
                } else {
                    self.next_ms + WARNING_INTERVAL_MS
                };
                self.armed = false;
                true
            } else {
                false
            }
        } else {
            self.armed = true;
            false
        }
    }
}

/// A population readout: tenths of a billion above 400 million persons,
/// whole millions otherwise, rounded half up.
pub open spec fn readout(population: u64) -> (u64, bool) {
    if population > 400_000_000 {
        (((population + 50_000_000) / 100_000_000) as u64, true)
    } else {
        (((population + 500_000) / 1_000_000) as u64, false)
    }
}

/// How to show a population: `(value, true)` is `value` tenths of a
/// billion, `(value, false)` is `value` millions.
pub fn population_readout(population: u64) -> (r: (u64, bool))
    requires
        population <= u64::MAX - 50_000_000,
    ensures
        r == readout(population),
{
    if population > 400_000_000 {
        ((population + 50_000_000) / 100_000_000, true)
    } else {
        ((population + 500_000) / 1_000_000, false)
    }
}

/// Craft health in whole hit points, rounded half up.
pub fn health_points(health: u64) -> (r: u64)
    ensures
        r == (health as int + 50_000_000) / 100_000_000,
{
    if health > u64::MAX - 50_000_000 {
        assert((health as int + 50_000_000) / 100_000_000 == 184_467_440_737) by (nonlinear_arith)
            requires health > u64::MAX - 50_000_000, health <= u64::MAX;
        184_467_440_737
    } else {
        (health + 50_000_000) / 100_000_000
    }
}

/// Victory progress in whole percent, rounded half up.
pub fn progress_percent(progress: u64) -> (r: u64)
    requires
        progress <= PROGRESS_FULL,
    ensures
        r == (progress + 5_000) / 10_000,
{
    (progress + 5_000) / 10_000
}

} // verus!
