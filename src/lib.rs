//! Gameplay core of a side-scrolling runner: a dinosaur jumps over obstacles
//! that scroll in from the right, a score timer runs while the game is live, and
//! a collision pauses the game.
//!
//! All lengths are in thousandths of a pixel and all durations in microseconds,
//! so every rule of the game is integer arithmetic.
pub mod collision;
pub mod game;
pub mod geometry;
pub mod jump;
pub mod obstacle;
