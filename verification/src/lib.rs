//! A two-paddle ball game on a fixed playfield, advanced one tick at a time.

pub mod ball;
pub mod input;
pub mod laws;
pub mod player;
mod random;
pub mod scene;
pub mod state;
pub mod teleporter;
pub mod units;
