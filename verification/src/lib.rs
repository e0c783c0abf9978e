//! Core of a family of lane-runner arcade games: fixed-point 2D geometry,
//! iterative box-displacement collision resolution, fixed-timestep frame
//! pacing, timer-driven entity spawning with rejection-sampled placement,
//! and the per-variant game state machines.
//!
//! All coordinates are fixed-point integers: one unit is a hundredth of a
//! pixel, so every tuning constant of the games (378.66, 38.4, 65.33, ...)
//! is represented exactly.

pub mod dilemma;
pub mod geom;
pub mod hero;
pub mod level;
pub mod pacer;
pub mod render;
pub mod rng;
pub mod runner;
pub mod spawn;
pub mod sprites;
