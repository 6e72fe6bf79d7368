//! A snake game on a bounded grid: the grid geometry, the state of a game,
//! the simulation step, the steering rules and the character frame.
pub mod game;
pub mod grid;
pub mod render;
