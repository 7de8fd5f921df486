//! Simulation core of a two-player avoidance game.
//!
//! Two circles move one pixel per tick inside a fixed arena and must pass
//! through the gaps of an obstacle that comes down the panel and is replaced
//! by a fresh one every cycle. Touching the obstacle, or each other, is what
//! the circles must avoid: the first ends the round, the second is undone
//! before it shows.
//!
//! - [`world`] holds the state of a round and what it means for it to be
//!   well formed.
//! - [`game`] holds the rules: starting a round, moving the circles,
//!   advancing the obstacle, and the tick that puts them in order.
//! - [`collision`] pushes the circles apart and detects contact with the
//!   obstacle.
//! - [`obstacle`] lays out fresh obstacles from random draws, which
//!   [`random`] makes.
//! - [`ai`] is the autopilot that can hold the buttons.
//! - [`display`] draws into the scan-out buffer.
//! - [`render_sync`] and [`utils`] hold the counters that the panel's and
//!   the timer's interrupts drive.

#![allow(unused_imports)]

pub mod ai;
pub mod collision;
pub mod display;
pub mod game;
pub mod obstacle;
pub mod random;
pub mod render_sync;
pub mod utils;
pub mod world;

pub use crate::world::Circle;
pub use crate::world::GameEnv;
pub use crate::world::Obstacle;
pub use crate::world::Rectangle;
