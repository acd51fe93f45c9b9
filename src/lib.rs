//! Tick-driven snake simulation: geometry, snake movement, food and the
//! per-tick game state machine, with their behaviour stated as contracts.
pub mod clock;
pub mod color;
pub mod config;
pub mod food;
pub mod game;
pub mod input;
pub mod pacing;
pub mod platform;
pub mod random;
pub mod snake;
