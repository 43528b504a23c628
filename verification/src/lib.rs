//! Simulation core of a grid-based snake game: deterministic, tick-driven
//! logic that advances the snake, grows its body, detects self-collision,
//! and spawns or consumes food on a bounded (optionally wrapping) grid.
//! Rendering, window and input-device handling are left to the caller,
//! which feeds the core direction intents and elapsed time and reads back
//! positions and discrete game events.

pub mod clock;
pub mod collision;
pub mod food;
pub mod game;
pub mod grid;
pub mod laws;
pub mod rng;
pub mod segment;
pub mod snake;
