//! Grid geometry: where one step from a position leads on a board whose
//! edges wrap.

use vstd::prelude::*;

verus! {

/// Width of the board, in the units of a position.
pub const BOARD_WIDTH: i32 = 400;

/// Height of the board, in the units of a position.
pub const BOARD_HEIGHT: i32 = 400;

/// Side of one cell; one step moves by this much.
pub const CELL_SIZE: i32 = 20;

/// Number of cell columns on the board.
pub const COLUMNS: i32 = 20;

/// Number of cell rows on the board.
pub const ROWS: i32 = 20;

/// One of the four directions in which the snake can move. The vertical axis
/// points down, as on a screen.
#[derive(Clone, Copy, Debug, PartialEq, Eq, Structural)]
pub enum Direction {
    Up,
    Down,
    Left,
    Right,
}

impl Direction {
    /// Horizontal component of the unit vector: -1, 0 or 1.
    pub open spec fn spec_dx(self) -> i32 {
        match self {
            Direction::Left => -1i32,
            Direction::Right => 1i32,
            _ => 0i32,
        }
    }

    /// Vertical component of the unit vector: -1, 0 or 1.
    pub open spec fn spec_dy(self) -> i32 {
        match self {
            Direction::Up => -1i32,
            Direction::Down => 1i32,
            _ => 0i32,
        }
    }

    /// Whether the direction lies on the vertical axis.
    pub open spec fn spec_is_vertical(self) -> bool {
        self.dy() != 0
    }

    /// Whether two directions lie on the same axis: equal or opposite.
    pub open spec fn collinear(self, other: Direction) -> bool {
        self.is_vertical() == other.is_vertical()
    }

    #[verifier::when_used_as_spec(spec_dx)]
    pub fn dx(self) -> (d: i32)
        ensures
            d == self.spec_dx(),
    {
        match self {
            Direction::Left => -1i32,
            Direction::Right => 1i32,
            _ => 0i32,
        }
    }

    #[verifier::when_used_as_spec(spec_dy)]
    pub fn dy(self) -> (d: i32)
        ensures
            d == self.spec_dy(),
    {
        match self {
            Direction::Up => -1i32,
            Direction::Down => 1i32,
            _ => 0i32,
        }
    }

    #[verifier::when_used_as_spec(spec_is_vertical)]
    pub fn is_vertical(self) -> (v: bool)
        ensures
            v == self.spec_is_vertical(),
    {
        match self {
            Direction::Up => true,
            Direction::Down => true,
            _ => false,
        }
    }
}

/// The horizontal coordinate after a wrap: a step to `width` or beyond
/// re-enters at 0, a step below 0 re-enters at `width`.
pub open spec fn wrap_x(raw: int, width: int) -> int {
    let low = if raw >= width { 0 } else { raw };
    if low < 0 { width } else { low }
}

/// The vertical coordinate after a wrap: a step beyond `height` re-enters at
/// 0, a step below 0 re-enters at `height`. A step onto `height` itself
/// stays there: the lower edge is one row deeper than the right edge.
pub open spec fn wrap_y(raw: int, height: int) -> int {
    let low = if raw > height { 0 } else { raw };
    if low < 0 { height } else { low }
}

/// The position one step of `cell` from `(x, y)` in direction `heading`, on
/// a board of `width` by `height`.
pub open spec fn step(x: int, y: int, heading: Direction, cell: int, width: int, height: int) -> (
    int,
    int,
) {
    (wrap_x(x + heading.dx() * cell, width), wrap_y(y + heading.dy() * cell, height))
}

/// Whether `(x, y)` lies on a board of `width` by `height`, both far edges
/// included.
pub open spec fn on_board(x: int, y: int, width: int, height: int) -> bool {
    0 <= x <= width && 0 <= y <= height
}

fn wrap_coordinate(raw: i64, limit: i32, inclusive: bool) -> (r: i32)
    ensures
        inclusive ==> r == wrap_y(raw as int, limit as int),
        !inclusive ==> r == wrap_x(raw as int, limit as int),
{
    let beyond = if inclusive { raw > limit as i64 } else { raw >= limit as i64 };
    let low: i64 = if beyond { 0 } else { raw };
    if low < 0 {
        limit
    } else {
        low as i32
    }
}

fn offset(unit: i32, cell: i32) -> (r: i64)
    requires
        -1 <= unit <= 1,
    ensures
        r == unit * cell,
        -0x8000_0000 <= r <= 0x8000_0000,
{
    proof {
        assert(unit == -1 ==> unit * cell == -cell) by (nonlinear_arith);
        assert(unit == 1 ==> unit * cell == cell) by (nonlinear_arith);
        assert(unit == 0 ==> unit * cell == 0) by (nonlinear_arith);
    }
    if unit < 0 {
        -(cell as i64)
    } else if unit > 0 {
        cell as i64
    } else {
        0
    }
}

/// Computes the position one step of `cell` from `(x, y)` in direction
/// `heading`, wrapped at the edges of a board of `width` by `height`.
pub fn next_position(x: i32, y: i32, heading: Direction, cell: i32, width: i32, height: i32) -> (p:
    (i32, i32))
    ensures
        (p.0 as int, p.1 as int) == step(
            x as int,
            y as int,
            heading,
            cell as int,
            width as int,
            height as int,
        ),
{
    let raw_x: i64 = x as i64 + offset(heading.dx(), cell);
    let raw_y: i64 = y as i64 + offset(heading.dy(), cell);
    (wrap_coordinate(raw_x, width, false), wrap_coordinate(raw_y, height, true))
}

/// A step that does not cross the left edge of a board of positive width
/// ends on the board and short of its right edge.
pub proof fn lemma_step_short_of_right_edge(
    x: int,
    y: int,
    heading: Direction,
    cell: int,
    width: int,
    height: int,
)
    requires
        0 < width,
        0 <= x + heading.dx() * cell,
    ensures
        0 <= step(x, y, heading, cell, width, height).0 < width,
{
}

/// A step that does not cross the upper edge of a board of positive height
/// ends on the board, and on its lower edge only by stepping exactly onto
/// it.
pub proof fn lemma_step_within_height(
    x: int,
    y: int,
    heading: Direction,
    cell: int,
    width: int,
    height: int,
)
    requires
        0 < height,
        0 <= y + heading.dy() * cell,
    ensures
        0 <= step(x, y, heading, cell, width, height).1 <= height,
        step(x, y, heading, cell, width, height).1 == height ==> y + heading.dy() * cell
            == height,
{
}

/// Whatever the step, on a board with positive sides it ends on the board,
/// far edges included: on the right edge exactly when it crossed the left
/// one, and on the lower edge exactly when it crossed the upper one or
/// stepped onto the lower one.
pub proof fn lemma_step_on_board(
    x: int,
    y: int,
    heading: Direction,
    cell: int,
    width: int,
    height: int,
)
    requires
        0 < width,
        0 < height,
    ensures
        ({
            let p = step(x, y, heading, cell, width, height);
            &&& on_board(p.0, p.1, width, height)
            &&& p.0 == width <==> x + heading.dx() * cell < 0
            &&& p.1 == height <==> (y + heading.dy() * cell < 0 || y + heading.dy() * cell
                == height)
        }),
{
}

} // verus!
