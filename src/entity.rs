//! The universal simulated object and its well-formedness.
use vstd::prelude::*;
use crate::tuning::{POS_LIMIT, VEL_LIMIT, ACC_LIMIT, RADIUS_LIMIT};
use crate::state::Outcome;

verus! {

/// Position, velocity and acceleration, each on two axes.
#[derive(Clone, Copy, Debug, PartialEq, Eq, Structural)]
pub struct Transform {
    pub pos_x: i64,
    pub pos_y: i64,
    pub vel_x: i64,
    pub vel_y: i64,
    pub acc_x: i64,
    pub acc_y: i64,
}

/// What an entity is; decides how collisions treat it.
#[derive(Clone, Copy, Debug, PartialEq, Eq, Structural)]
pub enum Kind {
    Ship,
    Planet,
    Meteor,
    Projectile,
    UI,
}

/// An RGBA colour.
#[derive(Clone, Copy, Debug, PartialEq, Eq, Structural)]
pub struct Color {
    pub r: u8,
    pub g: u8,
    pub b: u8,
    pub a: u8,
}

/// What a text entity shows; the renderer turns it into words.
#[derive(Clone, Copy, Debug, PartialEq, Eq, Structural)]
pub enum Label {
    /// The current population.
    Population,
    /// The craft's health.
    Health,
    /// The victory progress.
    Progress,
    /// Casualties of one meteor impact, in persons.
    Impact(u64),
    /// The overpopulation warning.
    OverpopulationWarning,
    /// The final result of the game.
    Result(Outcome),
}

/// The geometry of an entity.
#[derive(Clone, Copy, Debug, PartialEq, Eq, Structural)]
pub enum Shape {
    Circle { radius: i64, color: Color },
    Text { label: Label, size: u32, color: Color },
}

/// Everything about an entity except its identifier.
#[derive(Clone, Copy, Debug, PartialEq, Eq, Structural)]
pub struct Blueprint {
    pub transform: Transform,
    pub kind: Kind,
    pub shape: Shape,
    /// Remaining ticks, for transient entities.
    pub ttl: Option<u64>,
    pub collidable: bool,
}

/// A live entity of the store.
#[derive(Clone, Copy, Debug, PartialEq, Eq, Structural)]
pub struct Entity {
    pub id: u64,
    pub body: Blueprint,
}

pub open spec fn abs_le(v: i64, bound: i64) -> bool {
    -bound <= v <= bound
}

impl Transform {
    /// Coordinates, speeds and accelerations within the world's limits.
    pub open spec fn wf(&self) -> bool {
        &&& abs_le(self.pos_x, POS_LIMIT)
        &&& abs_le(self.pos_y, POS_LIMIT)
        &&& abs_le(self.vel_x, VEL_LIMIT)
        &&& abs_le(self.vel_y, VEL_LIMIT)
        &&& abs_le(self.acc_x, ACC_LIMIT)
        &&& abs_le(self.acc_y, ACC_LIMIT)
    }
}

impl Shape {
    /// The radius of a circle; zero for text.
    pub open spec fn size(&self) -> i64 {
        match self {
            Shape::Circle { radius, .. } => *radius,
            Shape::Text { .. } => 0,
        }
    }

    pub open spec fn is_circle(&self) -> bool {
        self is Circle
    }
}

impl Blueprint {
    /// Within limits; circles have a positive radius; text never collides;
    /// only interface entities are text.
    pub open spec fn wf(&self) -> bool {
        &&& self.transform.wf()
        &&& self.kind != Kind::UI ==> self.shape is Circle
        &&& match self.shape {
            Shape::Circle { radius, .. } => 0 < radius <= RADIUS_LIMIT,
            Shape::Text { .. } => !self.collidable,
        }
    }

    /// The radius of a circle; zero for text.
    pub fn size(&self) -> (r: i64)
        ensures
            r == self.shape.size(),
    {
        match self.shape {
            Shape::Circle { radius, .. } => radius,
            Shape::Text { .. } => 0,
        }
    }
}

impl Entity {
    pub open spec fn wf(&self) -> bool {
        self.body.wf()
    }
}

} // verus!
