//! Simulation core of a single-screen breakout game: paddle and ball
//! physics against a perimeter of wall tiles, driven by a small
//! menu / playing / game-over state machine.
pub mod ball;
pub mod config;
pub mod glyph;
pub mod paddle;
pub mod screen;
pub mod state;
pub mod velocity;
pub mod wall;
