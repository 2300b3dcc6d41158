//! A snake game engine on a toroidal grid: movement, input latching,
//! collision detection, fruit placement, scoring and the game state machine.
//!
//! The engine draws nothing and reads no device. A host hands it key presses
//! and the time elapsed since the last frame, and is handed back a snapshot
//! to draw and the request to end the session.
//!
//! - `direction`, `grid`: headings and cells of the playing field.
//! - `snake`: the head and the body it trails.
//! - `clock`: the clock that paces the snake.
//! - `fruit`: the free cells, and a random choice among them.
//! - `rules`: what a key press, a frame and a step do to a session.
//! - `game`: the session itself.
//! - `rng`: what is assumed of the random number generator.

pub mod clock;
pub mod direction;
pub mod fruit;
pub mod game;
pub mod grid;
pub mod rng;
pub mod rules;
pub mod snake;
