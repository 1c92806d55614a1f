//! One game: a snake that is steered by keys, ticks at a fixed rate and is
//! replaced by a new one when it runs into itself.

use vstd::prelude::*;

use crate::block::{Block, Color};
use crate::grid::Direction;
use crate::snake::{hits_itself, initial_body, Snake, SnakeState};

verus! {

/// Number of ticks in a second of play.
pub const UPDATES_PER_SECOND: u64 = 8;

/// The keys that steer the snake: the four arrows, and W, A, S and D laid
/// out like them.
#[derive(Clone, Copy, Debug, PartialEq, Eq, Structural)]
pub enum Key {
    Up,
    Down,
    Left,
    Right,
    W,
    A,
    S,
    D,
}

impl Key {
    /// The heading that the key asks for.
    pub open spec fn spec_direction(self) -> Direction {
        match self {
            Key::Up | Key::W => Direction::Up,
            Key::Down | Key::S => Direction::Down,
            Key::Left | Key::A => Direction::Left,
            Key::Right | Key::D => Direction::Right,
        }
    }

    #[verifier::when_used_as_spec(spec_direction)]
    pub fn direction(self) -> (heading: Direction)
        ensures
            heading == self.spec_direction(),
    {
        match self {
            Key::Up | Key::W => Direction::Up,
            Key::Down | Key::S => Direction::Down,
            Key::Left | Key::A => Direction::Left,
            Key::Right | Key::D => Direction::Right,
        }
    }
}

/// What a game is, as plain values: its snake and the colour in which its
/// snakes are drawn.
pub struct GameState {
    pub snake: SnakeState,
    pub color: Color,
}

impl GameState {
    /// Whether `snake` is a new snake of this game: the initial body in the
    /// game's colour, heading down, with food on the grid.
    pub open spec fn starts_with(self, snake: SnakeState) -> bool {
        &&& snake.body == initial_body(self.color)
        &&& snake.direction == Direction::Down
        &&& snake.food.is_food()
    }

    /// Whether the next tick ends the snake: moved, and grown if it eats,
    /// its head lies on its body. A snake that eats always ends so.
    pub open spec fn ends(self) -> bool {
        hits_itself(self.snake.resolved_body())
    }
}

/// A game in play.
pub struct Game {
    snake: Snake,
    color: Color,
}

impl View for Game {
    type V = GameState;

    closed spec fn view(&self) -> GameState {
        GameState { snake: self.snake@, color: self.color }
    }
}

impl Game {
    /// Starts a game whose snakes are drawn in `color`.
    pub fn new(color: Color) -> (game: Game)
        ensures
            game@.color == color,
            game@.starts_with(game@.snake),
            game@.snake.valid(),
    {
        Game { snake: Snake::new(color), color }
    }

    /// Takes up a game with `snake` in play; the snakes that follow it are
    /// drawn in `color`.
    pub fn with_snake(snake: Snake, color: Color) -> (game: Game)
        ensures
            game@.snake == snake@,
            game@.color == color,
    {
        Game { snake, color }
    }

    /// Tells whether the snake in play has a head and lies on the board, as
    /// a tick asks.
    pub fn is_valid(&self) -> (ok: bool)
        ensures
            ok == self@.snake.valid(),
    {
        self.snake.is_valid()
    }

    /// The snake now in play.
    pub fn snake(&self) -> (snake: &Snake)
        ensures
            snake@ == self@.snake,
    {
        &self.snake
    }

    /// Takes a key press: the snake is asked to head where the key points.
    pub fn press(&mut self, key: Key)
        ensures
            final(self)@.snake == old(self)@.snake.turned(key.direction()),
            final(self)@.color == old(self)@.color,
    {
        self.snake.set_direction(key.direction());
    }

    /// Advances the game by one tick and tells whether the snake was
    /// replaced. A snake that runs into itself, as one that eats does,
    /// gives way to a new one; else the snake in play has moved by one
    /// cell.
    pub fn tick(&mut self) -> (restarted: bool)
        requires
            old(self)@.snake.valid(),
        ensures
            restarted == old(self)@.ends(),
            old(self)@.snake.eats() ==> restarted,
            restarted ==> final(self)@.starts_with(final(self)@.snake),
            !restarted ==> final(self)@.snake == old(self)@.snake.moved(),
            final(self)@.color == old(self)@.color,
            final(self)@.snake.valid(),
    {
        match self.snake.update() {
            Ok(_) => false,
            Err(_) => {
                self.snake = Snake::new(self.color);
                true
            },
        }
    }

    /// The cells to draw for one frame, in drawing order: the snake from
    /// head to tail, then the food.
    pub fn frame(&self) -> (cells: Vec<Block>)
        ensures
            cells@ == self@.snake.body.push(self@.snake.food),
    {
        self.snake.draw()
    }
}

} // verus!
