//! The snake: its body, its heading and the food it is after.

use std::collections::VecDeque;
use vstd::prelude::*;

use crate::block::{Block, Color};
use crate::grid::{
    next_position, step, Direction, BOARD_HEIGHT, BOARD_WIDTH, CELL_SIZE, COLUMNS, ROWS,
};
use crate::random::random_below;

verus! {

/// Horizontal position at which a new snake is seeded.
pub const SPAWN_X: i32 = 40;

/// Vertical position at which a new snake is seeded.
pub const SPAWN_Y: i32 = 20;

/// Number of segments of a new snake.
pub const INITIAL_LENGTH: usize = 3;

/// What a snake is, as plain values: the body from head to tail, the heading
/// and the food.
pub struct SnakeState {
    pub body: Seq<Block>,
    pub direction: Direction,
    pub food: Block,
}

/// Whether some segment behind the head lies at the head's position.
pub open spec fn hits_itself(body: Seq<Block>) -> bool {
    exists|i: int| 1 <= i < body.len() && (#[trigger] body[i]).same_position(body[0])
}

/// Whether no two segments lie at the same position.
pub open spec fn all_apart(body: Seq<Block>) -> bool {
    forall|i: int, j: int|
        0 <= i < j < body.len() ==> !(#[trigger] body[i]).same_position(#[trigger] body[j])
}

/// Whether every segment lies on the board.
pub open spec fn all_within_board(body: Seq<Block>) -> bool {
    forall|i: int| 0 <= i < body.len() ==> (#[trigger] body[i]).within_board()
}

impl SnakeState {
    /// There is a head, and every segment lies on the board.
    pub open spec fn valid(self) -> bool {
        self.body.len() > 0 && all_within_board(self.body)
    }

    /// The head: the first segment.
    pub open spec fn head(self) -> Block {
        self.body[0]
    }

    /// The head after one step in the current heading: the old head, moved
    /// and wrapped.
    pub open spec fn next_head(self) -> Block {
        let p = step(
            self.head().x as int,
            self.head().y as int,
            self.direction,
            CELL_SIZE as int,
            BOARD_WIDTH as int,
            BOARD_HEIGHT as int,
        );
        Block {
            x: p.0 as i32,
            y: p.1 as i32,
            w: self.head().w,
            h: self.head().h,
            color: self.head().color,
        }
    }

    /// One segment longer: the next head is put in front.
    pub open spec fn grown(self) -> SnakeState {
        SnakeState { body: seq![self.next_head()] + self.body, ..self }
    }

    /// One cell further at the same length: the next head is put in front
    /// and the tail is dropped.
    pub open spec fn moved(self) -> SnakeState {
        SnakeState { body: seq![self.next_head()] + self.body.drop_last(), ..self }
    }

    /// Whether the next step brings the head onto the food.
    pub open spec fn eats(self) -> bool {
        self.next_head().same_position(self.food)
    }

    /// The body after one tick: moved by one cell and, where that brings the
    /// head onto the food, one segment longer by a copy of the new head put
    /// in front of it. No further step is taken and no further tail is
    /// dropped, so after a meal the two foremost segments share the food's
    /// position.
    pub open spec fn resolved_body(self) -> Seq<Block> {
        if self.eats() {
            seq![self.next_head()] + self.moved().body
        } else {
            self.moved().body
        }
    }

    /// The state after one tick, `fresh` being the food that replaces an
    /// eaten one. The snake moves; where that brings its head onto the food
    /// it grows by a copy of its head and the food is replaced.
    pub open spec fn ticked(self, fresh: Block) -> SnakeState {
        SnakeState {
            body: self.resolved_body(),
            direction: self.direction,
            food: if self.eats() {
                fresh
            } else {
                self.food
            },
        }
    }

    /// The state after a request to head in `requested`: taken up when it
    /// turns the snake onto the other axis, ignored when it lies on the axis
    /// of motion.
    pub open spec fn turned(self, requested: Direction) -> SnakeState {
        if requested.collinear(self.direction) {
            self
        } else {
            SnakeState { direction: requested, ..self }
        }
    }
}

/// What a tick reports of the body it leaves: `Err(false)` where the snake
/// has run into itself, `Ok(true)` where it has not.
pub open spec fn tick_outcome(body: Seq<Block>) -> Result<bool, bool> {
    if hits_itself(body) {
        Err(false)
    } else {
        Ok(true)
    }
}

/// The body of a new snake drawn in `color`: seeded at the spawn position
/// and grown downwards, head first.
pub open spec fn initial_body(color: Color) -> Seq<Block> {
    Seq::new(
        INITIAL_LENGTH as nat,
        |i: int|
            Block {
                x: SPAWN_X,
                y: (SPAWN_Y + (INITIAL_LENGTH - 1 - i) * CELL_SIZE) as i32,
                w: CELL_SIZE,
                h: CELL_SIZE,
                color,
            },
    )
}

/// Asking twice for the same heading changes no more than asking once.
pub proof fn lemma_turn_twice(state: SnakeState, requested: Direction)
    ensures
        state.turned(requested).turned(requested) == state.turned(requested),
{
}

/// A request along the axis of motion, forwards or backwards, changes
/// nothing; no request changes the body or the food.
pub proof fn lemma_turn_along_axis(state: SnakeState, requested: Direction)
    ensures
        requested.collinear(state.direction) ==> state.turned(requested) == state,
        requested == state.direction ==> state.turned(requested) == state,
        state.turned(requested).body == state.body,
        state.turned(requested).food == state.food,
{
}

/// A tick never shortens the body: it adds one segment where the food is
/// eaten and none where it is not.
pub proof fn lemma_tick_length(state: SnakeState, fresh: Block)
    requires
        state.valid(),
    ensures
        state.eats() ==> state.ticked(fresh).body.len() == state.body.len() + 1,
        !state.eats() ==> state.ticked(fresh).body.len() == state.body.len(),
        state.ticked(fresh).body.len() >= state.body.len(),
{
}

/// A tick keeps the snake on the board, whatever the food laid out.
pub proof fn lemma_tick_valid(state: SnakeState, fresh: Block)
    requires
        state.valid(),
    ensures
        state.ticked(fresh).valid(),
        state.ticked(fresh).direction == state.direction,
{
    let moved = state.moved();
    assert(moved.valid()) by {
        assert forall|i: int| 0 <= i < moved.body.len() implies (
        #[trigger] moved.body[i]).within_board() by {
            if i > 0 {
                assert(moved.body[i] == state.body[i - 1]);
            }
        }
    }
    if state.eats() {
        let fed = state.resolved_body();
        assert forall|i: int| 0 <= i < fed.len() implies (#[trigger] fed[i]).within_board() by {
            if i > 0 {
                assert(fed[i] == moved.body[i - 1]);
            } else {
                assert(fed[0] == moved.body[0]);
            }
        }
    }
}

/// A tick that eats ends the snake: the copy of the head that is put in
/// front lies at the head's position, which is reported as a collision.
pub proof fn lemma_meal_ends_snake(state: SnakeState, fresh: Block)
    requires
        state.valid(),
        state.eats(),
    ensures
        state.ticked(fresh).body.len() == state.body.len() + 1,
        state.ticked(fresh).body[0].same_position(state.food),
        state.ticked(fresh).body[1].same_position(state.food),
        hits_itself(state.ticked(fresh).body),
        tick_outcome(state.ticked(fresh).body) == Err::<bool, bool>(false),
{
    let fed = state.ticked(fresh).body;
    assert(fed[1] == state.next_head());
    assert(fed[1].same_position(fed[0]));
}

/// Where the segments behind the head lie apart from one another, the head
/// lies on one of them exactly when two segments of the body share a
/// position.
pub proof fn lemma_hit_iff_shared(body: Seq<Block>)
    requires
        body.len() > 0,
        all_apart(body.skip(1)),
    ensures
        hits_itself(body) <==> !all_apart(body),
{
    if !hits_itself(body) {
        assert forall|i: int, j: int| 0 <= i < j < body.len() implies !(
        #[trigger] body[i]).same_position(#[trigger] body[j]) by {
            if i > 0 {
                assert(body.skip(1)[i - 1] == body[i]);
                assert(body.skip(1)[j - 1] == body[j]);
            }
        }
    }
}

/// A tick of a snake whose segments lie apart reports a collision exactly
/// when it leaves two segments at one position.
pub proof fn lemma_tick_hit_iff_shared(state: SnakeState, fresh: Block)
    requires
        state.valid(),
        all_apart(state.body),
    ensures
        hits_itself(state.ticked(fresh).body) <==> !all_apart(state.ticked(fresh).body),
        tick_outcome(state.ticked(fresh).body) is Err <==> !all_apart(state.ticked(fresh).body),
{
    if state.eats() {
        lemma_meal_ends_snake(state, fresh);
        let fed = state.ticked(fresh).body;
        assert(fed[0].same_position(fed[1]));
    } else {
        let moved = state.moved().body;
        assert(all_apart(moved.skip(1))) by {
            assert forall|i: int, j: int| 0 <= i < j < moved.skip(1).len() implies !(
            #[trigger] moved.skip(1)[i]).same_position(#[trigger] moved.skip(1)[j]) by {
                assert(moved.skip(1)[i] == state.body[i]);
                assert(moved.skip(1)[j] == state.body[j]);
            }
        }
        lemma_hit_iff_shared(moved);
    }
}

/// A snake on the board.
pub struct Snake {
    body: VecDeque<Block>,
    direction: Direction,
    food: Block,
}

impl View for Snake {
    type V = SnakeState;

    closed spec fn view(&self) -> SnakeState {
        SnakeState { body: self.body@, direction: self.direction, food: self.food }
    }
}

impl Snake {
    /// Makes a snake of `default_color`: a body of `INITIAL_LENGTH` segments
    /// seeded at the spawn position, heading down, and food at a random
    /// cell of the grid.
    pub fn new(default_color: Color) -> (snake: Snake)
        ensures
            snake@.body == initial_body(default_color),
            snake@.direction == Direction::Down,
            snake@.food.is_food(),
            snake@.valid(),
    {
        let food = Snake::spawn_food();
        let head = Block::new(SPAWN_X, SPAWN_Y, CELL_SIZE, CELL_SIZE, default_color);
        let mut body: VecDeque<Block> = VecDeque::new();
        body.push_front(head);
        let mut snake = Snake { body, direction: Direction::Down, food };
        let mut length: usize = 1;
        while length < INITIAL_LENGTH
            invariant
                1 <= length <= INITIAL_LENGTH,
                snake@.valid(),
                snake@.direction == Direction::Down,
                snake@.food == food,
                snake@.body.len() == length,
                forall|i: int|
                    0 <= i < length ==> #[trigger] snake@.body[i] == (Block {
                        x: SPAWN_X,
                        y: (SPAWN_Y + (length - 1 - i) * CELL_SIZE) as i32,
                        w: CELL_SIZE,
                        h: CELL_SIZE,
                        color: default_color,
                    }),
            decreases INITIAL_LENGTH - length,
        {
            snake.grow();
            length += 1;
        }
        assert(snake@.body =~= initial_body(default_color));
        snake
    }

    /// Makes a snake out of its parts: `body` from head to tail, its
    /// heading and the food. There is none where `body` is empty or a
    /// segment lies off the board.
    pub fn from_parts(body: Vec<Block>, direction: Direction, food: Block) -> (made: Option<Snake>)
        ensures
            made is Some <==> (SnakeState { body: body@, direction, food }).valid(),
            made matches Some(snake) ==> snake@ == (SnakeState { body: body@, direction, food }),
    {
        if body.len() == 0 {
            return None;
        }
        let mut segments: VecDeque<Block> = VecDeque::new();
        let mut i: usize = 0;
        while i < body.len()
            invariant
                i <= body.len(),
                segments@ == body@.take(i as int),
                all_within_board(segments@),
            decreases body.len() - i,
        {
            let segment = body[i];
            if !segment.is_within_board() {
                return None;
            }
            segments.push_back(segment);
            assert(segments@ =~= body@.take(i + 1));
            i += 1;
        }
        assert(segments@ =~= body@);
        Some(Snake { body: segments, direction, food })
    }

    /// Tells whether the snake has a head and lies on the board with every
    /// segment, as every operation on it asks.
    pub fn is_valid(&self) -> (ok: bool)
        ensures
            ok == self@.valid(),
    {
        if self.body.len() == 0 {
            return false;
        }
        let mut i: usize = 0;
        while i < self.body.len()
            invariant
                i <= self.body@.len(),
                forall|k: int| 0 <= k < i ==> (#[trigger] self.body@[k]).within_board(),
            decreases self.body@.len() - i,
        {
            if !self.body[i].is_within_board() {
                return false;
            }
            i += 1;
        }
        true
    }

    /// The number of segments.
    pub fn len(&self) -> (n: usize)
        ensures
            n == self@.body.len(),
    {
        self.body.len()
    }

    /// The head: the first segment.
    pub fn head(&self) -> (head: Block)
        requires
            self@.valid(),
        ensures
            head == self@.head(),
    {
        self.body[0]
    }

    /// The heading.
    pub fn direction(&self) -> (heading: Direction)
        ensures
            heading == self@.direction,
    {
        self.direction
    }

    /// The food.
    pub fn food(&self) -> (food: Block)
        ensures
            food == self@.food,
    {
        self.food
    }

    /// The cells to draw for one frame, in drawing order: the body from
    /// head to tail, then the food.
    pub fn draw(&self) -> (cells: Vec<Block>)
        ensures
            cells@ == self@.body.push(self@.food),
    {
        let mut cells: Vec<Block> = Vec::new();
        let mut i: usize = 0;
        while i < self.body.len()
            invariant
                i <= self.body@.len(),
                cells@ == self.body@.take(i as int),
            decreases self.body@.len() - i,
        {
            cells.push(self.body[i]);
            assert(cells@ =~= self.body@.take(i + 1));
            i += 1;
        }
        cells.push(self.food);
        cells
    }

    /// Puts the next head in front of the body, one step from the head in
    /// the current heading. The tail stays.
    pub fn grow(&mut self)
        requires
            old(self)@.valid(),
        ensures
            final(self)@ == old(self)@.grown(),
            final(self)@.valid(),
    {
        let old_head = self.body[0];
        let p = next_position(
            old_head.x,
            old_head.y,
            self.direction,
            CELL_SIZE,
            BOARD_WIDTH,
            BOARD_HEIGHT,
        );
        let new_head = Block::new(p.0, p.1, old_head.w, old_head.h, old_head.color);
        self.body.push_front(new_head);
    }

    /// Tells whether a segment behind the head lies at the head's position.
    pub fn check_collision_with_body(&self) -> (hit: bool)
        requires
            self@.valid(),
        ensures
            hit == hits_itself(self@.body),
    {
        let head = self.body[0];
        let mut i: usize = 1;
        while i < self.body.len()
            invariant
                1 <= i,
                head == self.body@[0],
                forall|k: int|
                    1 <= k < i && k < self.body@.len() ==> !(
                    #[trigger] self.body@[k]).same_position(head),
            decreases self.body@.len() - i,
        {
            if self.body[i].check_collision(&head) {
                return true;
            }
            i += 1;
        }
        false
    }

    /// Tells whether the next step brings the head onto the food.
    pub fn will_eat(&self) -> (eats: bool)
        requires
            self@.valid(),
        ensures
            eats == self@.eats(),
    {
        let head = self.body[0];
        let p = next_position(head.x, head.y, self.direction, CELL_SIZE, BOARD_WIDTH, BOARD_HEIGHT);
        p.0 == self.food.x && p.1 == self.food.y
    }

    /// Advances the snake by one tick, with `fresh` as the food to lay out
    /// if the present one is eaten.
    ///
    /// The snake moves one cell. Where its head comes onto the food, a copy
    /// of the head is put in front of it and `fresh` becomes the food. The
    /// tick then fails, with `Err(false)`, if a segment behind the head
    /// lies at the head's position; else it gives `Ok(true)`. The snake has
    /// moved either way. A tick that eats always fails: the copy lies at
    /// the head's position.
    pub fn update_with(&mut self, fresh: Block) -> (outcome: Result<bool, bool>)
        requires
            old(self)@.valid(),
        ensures
            final(self)@ == old(self)@.ticked(fresh),
            final(self)@.valid(),
            outcome == tick_outcome(final(self)@.body),
            old(self)@.eats() ==> outcome == Err::<bool, bool>(false),
    {
        proof {
            if self@.eats() {
                lemma_meal_ends_snake(self@, fresh);
            }
        }
        self.grow();
        self.body.pop_back();
        assert(self.body@ =~= old(self)@.moved().body);
        let head = self.body[0];
        if head.check_collision(&self.food) {
            self.body.push_front(head);
            self.food = fresh;
        }
        if self.check_collision_with_body() {
            Err(false)
        } else {
            Ok(true)
        }
    }

    /// Lays out a food cell at a column and a row drawn at random.
    pub fn spawn_food() -> (food: Block)
        ensures
            food.is_food(),
    {
        let col = random_below(COLUMNS);
        let row = random_below(ROWS);
        Block::food_at(col, row)
    }

    /// Advances the snake by one tick; an eaten food is replaced by one at
    /// a random cell of the grid, which may lie under the snake.
    ///
    /// `Ok(true)` says that the snake is whole, `Err(false)` that it has run
    /// into itself and is to be replaced by a new one. The snake that eats
    /// grows by a copy of its head and so runs into itself.
    pub fn update(&mut self) -> (outcome: Result<bool, bool>)
        requires
            old(self)@.valid(),
        ensures
            final(self)@.body == old(self)@.resolved_body(),
            final(self)@.direction == old(self)@.direction,
            !old(self)@.eats() ==> final(self)@.food == old(self)@.food,
            old(self)@.eats() ==> final(self)@.food.is_food(),
            final(self)@.body.len() == old(self)@.body.len() + if old(self)@.eats() {
                1int
            } else {
                0int
            },
            final(self)@.valid(),
            outcome == tick_outcome(final(self)@.body),
            old(self)@.eats() ==> outcome == Err::<bool, bool>(false),
    {
        proof {
            if self@.eats() {
                lemma_meal_ends_snake(self@, self@.food);
            }
        }
        let fresh = if self.will_eat() {
            Snake::spawn_food()
        } else {
            self.food
        };
        self.update_with(fresh)
    }

    /// Asks the snake to head in `dir`. A request along the axis on which
    /// it moves, forwards or backwards, is ignored.
    pub fn set_direction(&mut self, dir: Direction)
        ensures
            final(self)@ == old(self)@.turned(dir),
            dir.collinear(old(self)@.direction) ==> final(self)@ == old(self)@,
            final(self)@.body == old(self)@.body,
            final(self)@.food == old(self)@.food,
    {
        if dir.is_vertical() != self.direction.is_vertical() {
            self.direction = dir;
        }
    }
}

} // verus!
