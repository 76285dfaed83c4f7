//! Gameplay rules of a top-down base-defence game.
//!
//! The player defends a base that levels up from collected parts while waves
//! of enemies close in. This crate holds the rules: what spawns and when, how
//! each kind of enemy acts, what a hit costs, what a kill drops, and how the
//! base grows. Positions, headings and drawing belong to the engine around it;
//! the rules see of them only what they need (a contact, a distance, an age)
//! and answer with what is to be done.
//!
//! Time is counted in nanoseconds on a clock that the session owns, sizes in
//! whole world units, places and distances in thousandths of a unit.

pub mod base;
pub mod bullet;
pub mod chance;
pub mod clock;
pub mod enemy;
pub mod game;
pub mod geometry;
pub mod part;
pub mod player;
pub mod sound;
pub mod timer;
pub mod turret;
pub mod wave;
