//! Simulation core of a small arcade game: a craft defends a planet from
//! meteors while the planet's population grows toward a space age.
//!
//! All quantities are fixed-point integers. A world length of 1.0 is
//! `tuning::SCALE` units; the world square spans `0..=SCALE` on both axes.
pub mod tuning;
pub mod entity;
pub mod store;
pub mod state;
pub mod physics;
pub mod collision;
pub mod random;
pub mod resolve;
pub mod lifetime;
pub mod spawner;
pub mod world;

pub use entity::{Blueprint, Color, Entity, Kind, Label, Shape, Transform};
pub use store::{EntityStore, StoreError};
pub use state::{GameState, Outcome, WarningClock};
pub use physics::{Controls, Direction};
pub use collision::Collision;
pub use resolve::{Draws, Event, PairEffect, Resolution};
pub use world::{Labels, StarDraws, TickReport, World};
