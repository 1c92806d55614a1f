//! Cells of the board: a position, a size and a colour.

use vstd::prelude::*;

use crate::grid::{on_board, BOARD_HEIGHT, BOARD_WIDTH, CELL_SIZE, COLUMNS, ROWS};

verus! {

/// A colour as four channels, each from 0 (none) to 255 (full).
#[derive(Clone, Copy, Debug, PartialEq, Eq, Structural)]
pub struct Color {
    pub red: u8,
    pub green: u8,
    pub blue: u8,
    pub alpha: u8,
}

impl Color {
    /// Opaque red.
    pub open spec fn spec_red() -> Color {
        Color { red: 255, green: 0, blue: 0, alpha: 255 }
    }

    /// Opaque green, at half strength.
    pub open spec fn spec_green() -> Color {
        Color { red: 0, green: 128, blue: 0, alpha: 255 }
    }

    /// Opaque white.
    pub open spec fn spec_white() -> Color {
        Color { red: 255, green: 255, blue: 255, alpha: 255 }
    }

    #[verifier::when_used_as_spec(spec_red)]
    pub fn red() -> (c: Color)
        ensures
            c == Color::spec_red(),
    {
        Color { red: 255, green: 0, blue: 0, alpha: 255 }
    }

    #[verifier::when_used_as_spec(spec_green)]
    pub fn green() -> (c: Color)
        ensures
            c == Color::spec_green(),
    {
        Color { red: 0, green: 128, blue: 0, alpha: 255 }
    }

    #[verifier::when_used_as_spec(spec_white)]
    pub fn white() -> (c: Color)
        ensures
            c == Color::spec_white(),
    {
        Color { red: 255, green: 255, blue: 255, alpha: 255 }
    }
}

/// One cell: the position of its upper left corner, its width and height,
/// and the colour it is drawn in.
#[derive(Clone, Copy, Debug, PartialEq, Eq, Structural)]
pub struct Block {
    pub x: i32,
    pub y: i32,
    pub w: i32,
    pub h: i32,
    pub color: Color,
}

impl Block {
    /// The position as a pair of integers.
    pub open spec fn position(self) -> (int, int) {
        (self.x as int, self.y as int)
    }

    /// Whether two cells lie at the same position. Size and colour do not
    /// count.
    pub open spec fn same_position(self, other: Block) -> bool {
        self.x == other.x && self.y == other.y
    }

    /// Whether the cell lies on the board, far edges included.
    pub open spec fn within_board(self) -> bool {
        on_board(self.x as int, self.y as int, BOARD_WIDTH as int, BOARD_HEIGHT as int)
    }

    /// The food cell of column `col` and row `row`.
    pub open spec fn spec_food_at(col: int, row: int) -> Block {
        Block {
            x: (col * CELL_SIZE) as i32,
            y: (row * CELL_SIZE) as i32,
            w: CELL_SIZE,
            h: CELL_SIZE,
            color: Color::green(),
        }
    }

    /// Whether the cell is a food cell of the grid: one cell wide and high,
    /// green, at a whole column and row of the board.
    pub open spec fn is_food(self) -> bool {
        exists|col: int, row: int|
            0 <= col < COLUMNS && 0 <= row < ROWS && self == #[trigger] Block::spec_food_at(
                col,
                row,
            )
    }

    pub fn new(x: i32, y: i32, w: i32, h: i32, color: Color) -> (b: Block)
        ensures
            b == (Block { x, y, w, h, color }),
    {
        Block { x, y, w, h, color }
    }

    /// Builds the food cell of column `col` and row `row`, both counted from
    /// 0 at the upper left corner.
    pub fn food_at(col: i32, row: i32) -> (b: Block)
        requires
            0 <= col < COLUMNS,
            0 <= row < ROWS,
        ensures
            b == Block::spec_food_at(col as int, row as int),
            b.is_food(),
    {
        Block::new(col * CELL_SIZE, row * CELL_SIZE, CELL_SIZE, CELL_SIZE, Color::green())
    }

    /// Tells whether the cell lies on the board, far edges included.
    pub fn is_within_board(&self) -> (inside: bool)
        ensures
            inside == self.within_board(),
    {
        0 <= self.x && self.x <= BOARD_WIDTH && 0 <= self.y && self.y <= BOARD_HEIGHT
    }

    /// Tells whether `self` and `block` lie at the same position.
    pub fn check_collision(&self, block: &Block) -> (hit: bool)
        ensures
            hit == self.same_position(*block),
    {
        self.x == block.x && self.y == block.y
    }
}

/// A food cell of the grid lies at whole multiples of the cell size, inside
/// the board and short of its far edges.
pub proof fn lemma_food_on_grid(b: Block)
    requires
        b.is_food(),
    ensures
        b.x % CELL_SIZE == 0,
        b.y % CELL_SIZE == 0,
        0 <= b.x < BOARD_WIDTH,
        0 <= b.y < BOARD_HEIGHT,
        b.within_board(),
        b.w == CELL_SIZE,
        b.h == CELL_SIZE,
        b.color == Color::green(),
{
    let (col, row) = choose|col: int, row: int|
        0 <= col < COLUMNS && 0 <= row < ROWS && b == #[trigger] Block::spec_food_at(col, row);
    assert(b == Block::spec_food_at(col, row));
}

} // verus!
