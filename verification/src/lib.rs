//! Pogin: a single-screen arcade game core.
//!
//! A player-controlled character moves left and right and jumps to catch
//! falling candy while a life meter depletes on every miss.  This crate holds
//! the per-frame simulation: the player movement model, candy spawning and
//! falling physics, collision and scoring resolution, the particle lifecycle,
//! the auto-tiling resolver and the rank formula.  Window handling, input
//! events, asset loading and rendering live outside the crate.
//!
//! All quantities are fixed-point integers: positions and velocities are
//! milli-pixels and milli-pixels per second, time steps are microseconds and
//! animation accumulators are milli-frames.  Arithmetic saturates at the
//! `i64` range, so every update is total.

pub mod candy;
pub mod game;
pub mod geom;
pub mod input;
pub mod particle;
pub mod player;
pub mod rank;
pub mod rng;
pub mod sprite;
pub mod tileset;
pub mod units;
