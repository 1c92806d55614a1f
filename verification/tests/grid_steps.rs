use snake_game::{next_position, Direction, BOARD_HEIGHT, BOARD_WIDTH, CELL_SIZE, COLUMNS, ROWS};

const HEADINGS: [Direction; 4] =
    [Direction::Up, Direction::Down, Direction::Left, Direction::Right];

fn step(x: i32, y: i32, heading: Direction) -> (i32, i32) {
    next_position(x, y, heading, CELL_SIZE, BOARD_WIDTH, BOARD_HEIGHT)
}

#[test]
fn board_is_twenty_cells_each_way() {
    assert_eq!(BOARD_WIDTH, 400);
    assert_eq!(BOARD_HEIGHT, 400);
    assert_eq!(CELL_SIZE, 20);
    assert_eq!(COLUMNS * CELL_SIZE, BOARD_WIDTH);
    assert_eq!(ROWS * CELL_SIZE, BOARD_HEIGHT);
}

#[test]
fn unit_vectors_of_the_headings() {
    assert_eq!((Direction::Up.dx(), Direction::Up.dy()), (0, -1));
    assert_eq!((Direction::Down.dx(), Direction::Down.dy()), (0, 1));
    assert_eq!((Direction::Left.dx(), Direction::Left.dy()), (-1, 0));
    assert_eq!((Direction::Right.dx(), Direction::Right.dy()), (1, 0));
}

#[test]
fn vertical_headings_are_up_and_down() {
    assert!(Direction::Up.is_vertical());
    assert!(Direction::Down.is_vertical());
    assert!(!Direction::Left.is_vertical());
    assert!(!Direction::Right.is_vertical());
}

#[test]
fn step_inside_the_board_moves_one_cell() {
    assert_eq!(step(40, 20, Direction::Down), (40, 40));
    assert_eq!(step(40, 20, Direction::Up), (40, 0));
    assert_eq!(step(40, 20, Direction::Left), (20, 20));
    assert_eq!(step(40, 20, Direction::Right), (60, 20));
}

#[test]
fn step_over_the_right_edge_enters_at_the_left() {
    assert_eq!(step(380, 100, Direction::Right), (0, 100));
    assert_eq!(step(400, 100, Direction::Right), (0, 100));
}

#[test]
fn step_over_the_left_edge_enters_at_the_width() {
    assert_eq!(step(0, 100, Direction::Left), (400, 100));
    assert_eq!(step(400, 100, Direction::Left), (380, 100));
}

#[test]
fn step_onto_the_lower_edge_stays_there() {
    assert_eq!(step(100, 380, Direction::Down), (100, 400));
}

#[test]
fn step_beyond_the_lower_edge_enters_at_the_top() {
    assert_eq!(step(100, 400, Direction::Down), (100, 0));
}

#[test]
fn step_over_the_upper_edge_enters_at_the_height() {
    assert_eq!(step(100, 0, Direction::Up), (100, 400));
    assert_eq!(step(100, 400, Direction::Up), (100, 380));
}

#[test]
fn step_along_the_right_edge_enters_at_the_left() {
    assert_eq!(step(400, 100, Direction::Down), (0, 120));
    assert_eq!(step(400, 100, Direction::Up), (0, 80));
}

#[test]
fn step_along_the_lower_edge_stays_on_it() {
    assert_eq!(step(100, 400, Direction::Right), (120, 400));
    assert_eq!(step(100, 400, Direction::Left), (80, 400));
}

#[test]
fn step_keeps_the_other_coordinate() {
    for heading in HEADINGS {
        let (x, y) = step(200, 200, heading);
        if heading.is_vertical() {
            assert_eq!(x, 200);
        } else {
            assert_eq!(y, 200);
        }
    }
}

#[test]
fn every_step_from_the_board_ends_on_the_board() {
    for heading in HEADINGS {
        for col in 0..=COLUMNS {
            for row in 0..=ROWS {
                let (x, y) = step(col * CELL_SIZE, row * CELL_SIZE, heading);
                assert!(0 <= x && x <= BOARD_WIDTH);
                assert!(0 <= y && y <= BOARD_HEIGHT);
            }
        }
    }
}

#[test]
fn steps_that_cross_no_near_edge_end_short_of_the_right_edge() {
    for heading in HEADINGS {
        for col in 0..=COLUMNS {
            for row in 0..=ROWS {
                let (x0, y0) = (col * CELL_SIZE, row * CELL_SIZE);
                let raw_x = x0 + heading.dx() * CELL_SIZE;
                let raw_y = y0 + heading.dy() * CELL_SIZE;
                if raw_x < 0 || raw_y < 0 {
                    continue;
                }
                let (x, y) = step(x0, y0, heading);
                assert!(0 <= x && x < BOARD_WIDTH);
                assert!(0 <= y && y <= BOARD_HEIGHT);
                if y == BOARD_HEIGHT {
                    assert_eq!(raw_y, BOARD_HEIGHT);
                }
            }
        }
    }
}

#[test]
fn step_on_another_board() {
    assert_eq!(next_position(90, 45, Direction::Right, 10, 100, 50), (0, 45));
    assert_eq!(next_position(90, 45, Direction::Down, 10, 100, 50), (90, 0));
    assert_eq!(next_position(90, 40, Direction::Down, 10, 100, 50), (90, 50));
    assert_eq!(next_position(5, 5, Direction::Left, 10, 100, 50), (100, 5));
    assert_eq!(next_position(5, 5, Direction::Up, 10, 100, 50), (5, 50));
}

#[test]
fn step_at_the_limits_of_the_integers() {
    assert_eq!(next_position(i32::MAX, 0, Direction::Right, i32::MAX, i32::MAX, i32::MAX), (0, 0));
    assert_eq!(
        next_position(i32::MIN, 0, Direction::Left, i32::MAX, i32::MAX, i32::MAX),
        (i32::MAX, 0)
    );
    assert_eq!(next_position(0, 0, Direction::Down, i32::MIN, 10, 10), (0, 10));
    assert_eq!(next_position(0, 0, Direction::Up, i32::MIN, 10, 10), (0, 0));
}
