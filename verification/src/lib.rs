//! Simulation core of a two-paddle ball game.
//!
//! The crate holds the deterministic part of the game: the fixed-step
//! movement of paddles and ball, the computer opponent's delayed and noisy
//! perception of the ball, and the detection and resolution of collisions.
//! Every function is stated over integers and proved against a mathematical
//! model of what it computes.
//!
//! # Units
//!
//! All quantities are fixed-point integers.
//!
//! * Lengths and positions are `i64` counts of millionths of a world unit.
//! * Times are `u64` counts of microseconds.
//! * Velocities and speeds are therefore world units per second: a body
//!   with velocity `v` moves `v * dt` length units in `dt` microseconds,
//!   with no rounding.

pub mod constants;
pub mod math;
pub mod physics;
pub mod timer;
pub mod movement;
pub mod ai;
pub mod setup;
pub mod game;
