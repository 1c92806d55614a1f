//! A grid-based snake: one actor that moves a cell at a time over a bounded
//! board, wraps at the edges, grows when it eats and loses when it runs into
//! itself.
//!
//! The crate holds the rules only. Opening a window, reading keys and pacing
//! the frames belong to the program that drives it.

pub mod block;
pub mod game;
pub mod grid;
mod random;
pub mod snake;

pub use block::{Block, Color};
pub use game::{Game, GameState, Key, UPDATES_PER_SECOND};
pub use grid::{
    next_position, Direction, BOARD_HEIGHT, BOARD_WIDTH, CELL_SIZE, COLUMNS, ROWS,
};
pub use snake::{Snake, SnakeState, INITIAL_LENGTH, SPAWN_X, SPAWN_Y};
