//! Core of a small arcade crossing game: a player-controlled crab crosses a
//! road of moving vehicles and a river of logs and turtles to occupy goal
//! slots, while managing lives and score.
//!
//! The crate holds the simulation core: obstacle motion and wrapping,
//! randomized lane population, grid-stepped player movement, collision and
//! goal detection, and the per-tick game-state transition.  Geometry is kept
//! in fixed-point play-field units (see `constants`).  Rendering is reduced
//! to computing a list of draw requests (see `sprites::DrawCmd`); carrying
//! them out is left to an unverified front end.

pub mod background;
pub mod characters;
pub mod constants;
pub mod river;
pub mod rng;
pub mod sprites;
pub mod state;
pub mod traffic;
