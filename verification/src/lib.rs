//! Rules of a small 2D arcade game, stated and proved apart from the engine
//! that draws it.
//!
//! The game comes in three stages that share one cast: a top-down arena in
//! which a ball dodges enemies and gathers stars, a row of platforms the ball
//! can jump between, and a side-scrolling run with an animated character and a
//! pause menu. Everything here works on whole numbers and flags. Positions,
//! velocities and distances are fractional and belong to the engine; a caller
//! measures them and hands over what was found.

pub mod config;
pub mod controls;
pub mod arena;
pub mod platforms;
pub mod player;
pub mod score;
pub mod spawn_timer;
pub mod ui;
