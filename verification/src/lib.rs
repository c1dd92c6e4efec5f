//! Game rules of a small arcade game: a player chases targets on a screen
//! while enemies bounce around a central wall.
//!
//! This crate holds the integer side of the game: rectangles and their
//! collisions, the play state, the score, lives and level, the pseudo-random
//! generator and every placement decision that it drives. The continuous
//! motion (floating-point positions and velocities, particles) is carried by
//! the application around it, which hands rounded rectangles to these rules.

pub mod collision;
pub mod game;
pub mod model;

pub use model::{AppState, Rect};

