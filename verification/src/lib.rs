//! A verified model of a grid-based snake game.
//!
//! The snake walks on a fixed 35 x 20 grid, grows by eating food, and dies on
//! walls, barriers, or its own body. A toggleable flash mode cycles the
//! background, snake, and entity colors. All game rules live here with
//! machine-checked contracts; windowing and drawing are left to the binary
//! around this crate.

pub mod color;
pub mod entity;
pub mod game;
pub mod grid;
pub mod laws;
mod rng;
pub mod snake;
