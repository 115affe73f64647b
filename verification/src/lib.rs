//! The simulation core of a grid-based snake game.
//!
//! A snake moves over a fixed board one cell per tick, grows by reaching
//! objectives, and starts over when it runs into a wall or into itself.
//!
//! - [`direction`]: the four headings and the rule that forbids reversing.
//! - [`positioning`]: cells, the board, and the wall test.
//! - [`snake`]: the snake's cells and heading, its step and its growth.
//! - [`objective`]: the objectives and their consumption.
//! - [`simulation`]: the state of a game and the tick that advances it.
//! - [`input`]: the heading that the keyboard asks for.

pub mod direction;
pub mod positioning;
pub mod snake;
pub mod objective;
pub mod simulation;
pub mod input;
