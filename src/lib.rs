//! Simulation core of a grid-based snake game: the snake, the food and the
//! session state machine that drives them one tick at a time.
pub mod grid;
pub mod snake;
pub mod food;
pub mod game;
