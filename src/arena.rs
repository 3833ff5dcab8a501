use vstd::prelude::*;

verus! {

// Lengths in pixels of the default 2D camera; the origin is the centre of
// the screen and `y` grows upwards.
pub const LEFT_WALL: i32 = -450;

pub const RIGHT_WALL: i32 = 450;

pub const BOTTOM_WALL: i32 = -300;

pub const TOP_WALL: i32 = 300;

pub const WALL_THICKNESS: i32 = 10;

pub const PADDLE_WIDTH: i32 = 120;

pub const PADDLE_HEIGHT: i32 = 20;

pub const GAP_BETWEEN_PADDLE_AND_FLOOR: i32 = 60;

/// How close the paddle may come to a wall.
pub const PADDLE_PADDING: i32 = 10;

pub const BRICK_WIDTH: i32 = 100;

pub const BRICK_HEIGHT: i32 = 30;

pub const GAP_BETWEEN_PADDLE_AND_BRICKS: i32 = 270;

pub const GAP_BETWEEN_BRICKS: i32 = 5;

/// The least gap between the bricks and the ceiling.
pub const GAP_BETWEEN_BRICKS_AND_CEILING: i32 = 20;

pub const GAP_BETWEEN_BRICKS_AND_SIDES: i32 = 20;

/// A wall of the arena.
#[derive(Clone, Copy, Debug, PartialEq, Eq, Structural)]
pub enum WallLocation {
    Left,
    Right,
    Bottom,
    Top,
}

pub open spec fn arena_width() -> int {
    RIGHT_WALL - LEFT_WALL
}

pub open spec fn arena_height() -> int {
    TOP_WALL - BOTTOM_WALL
}

/// The centre of a wall.
pub open spec fn wall_position(w: WallLocation) -> (int, int) {
    match w {
        WallLocation::Left => (LEFT_WALL as int, 0),
        WallLocation::Right => (RIGHT_WALL as int, 0),
        WallLocation::Bottom => (0, BOTTOM_WALL as int),
        WallLocation::Top => (0, TOP_WALL as int),
    }
}

/// The width and height of a wall: the side walls span the arena's height,
/// the others its width, and each reaches over the corners by half its
/// thickness at both ends.
pub open spec fn wall_size(w: WallLocation) -> (int, int) {
    match w {
        WallLocation::Left | WallLocation::Right => (
            WALL_THICKNESS as int,
            arena_height() + WALL_THICKNESS,
        ),
        WallLocation::Bottom | WallLocation::Top => (
            arena_width() + WALL_THICKNESS,
            WALL_THICKNESS as int,
        ),
    }
}

impl WallLocation {
    /// The centre of the wall.
    pub fn position(&self) -> (r: (i32, i32))
        ensures
            (r.0 as int, r.1 as int) == wall_position(*self),
    {
        match self {
            WallLocation::Left => (LEFT_WALL, 0),
            WallLocation::Right => (RIGHT_WALL, 0),
            WallLocation::Bottom => (0, BOTTOM_WALL),
            WallLocation::Top => (0, TOP_WALL),
        }
    }

    /// The width and height of the wall.
    pub fn size(&self) -> (r: (i32, i32))
        ensures
            (r.0 as int, r.1 as int) == wall_size(*self),
            r.0 > 0,
            r.1 > 0,
    {
        let arena_height = TOP_WALL - BOTTOM_WALL;
        let arena_width = RIGHT_WALL - LEFT_WALL;
        match self {
            WallLocation::Left | WallLocation::Right => (
                WALL_THICKNESS,
                arena_height + WALL_THICKNESS,
            ),
            WallLocation::Bottom | WallLocation::Top => (
                arena_width + WALL_THICKNESS,
                WALL_THICKNESS,
            ),
        }
    }
}

/// The height of the paddle's centre.
pub open spec fn paddle_y() -> int {
    BOTTOM_WALL + GAP_BETWEEN_PADDLE_AND_FLOOR
}

pub open spec fn bricks_bottom_edge() -> int {
    paddle_y() + GAP_BETWEEN_PADDLE_AND_BRICKS
}

/// The width left for bricks between the side gaps.
pub open spec fn bricks_total_width() -> int {
    arena_width() - 2 * GAP_BETWEEN_BRICKS_AND_SIDES
}

/// The height left for bricks between the paddle gap and the ceiling gap.
pub open spec fn bricks_total_height() -> int {
    TOP_WALL - bricks_bottom_edge() - GAP_BETWEEN_BRICKS_AND_CEILING
}

/// As many columns as fit, each a brick and a gap wide.
pub open spec fn brick_columns() -> int {
    bricks_total_width() / (BRICK_WIDTH + GAP_BETWEEN_BRICKS)
}

/// As many rows as fit, each a brick and a gap high.
pub open spec fn brick_rows() -> int {
    bricks_total_height() / (BRICK_HEIGHT + GAP_BETWEEN_BRICKS)
}

/// Twice the `x` of the centre of the bricks in `column`: the columns and
/// the gaps between them are centred on the arena.
pub open spec fn brick_x_doubled(column: int) -> int {
    (LEFT_WALL + RIGHT_WALL) - brick_columns() * BRICK_WIDTH - (brick_columns() - 1)
        * GAP_BETWEEN_BRICKS + BRICK_WIDTH + 2 * column * (BRICK_WIDTH + GAP_BETWEEN_BRICKS)
}

/// Twice the `y` of the centre of the bricks in `row`: the rows stack up
/// from the bottom edge of the bricks.
pub open spec fn brick_y_doubled(row: int) -> int {
    2 * bricks_bottom_edge() + BRICK_HEIGHT + 2 * row * (BRICK_HEIGHT + GAP_BETWEEN_BRICKS)
}

/// The height of the paddle's centre.
pub fn paddle_height_position() -> (r: i32)
    ensures
        r == paddle_y(),
{
    BOTTOM_WALL + GAP_BETWEEN_PADDLE_AND_FLOOR
}

/// The range of the paddle's centre: it stays its padding away from the
/// inner faces of the side walls.
pub fn paddle_bounds() -> (r: (i32, i32))
    ensures
        r.0 == LEFT_WALL + WALL_THICKNESS / 2 + PADDLE_WIDTH / 2 + PADDLE_PADDING,
        r.1 == RIGHT_WALL - WALL_THICKNESS / 2 - PADDLE_WIDTH / 2 - PADDLE_PADDING,
        r.0 < r.1,
{
    (
        LEFT_WALL + WALL_THICKNESS / 2 + PADDLE_WIDTH / 2 + PADDLE_PADDING,
        RIGHT_WALL - WALL_THICKNESS / 2 - PADDLE_WIDTH / 2 - PADDLE_PADDING,
    )
}

/// The number of columns and rows of bricks; there is room for at least one
/// of each.
pub fn brick_grid() -> (r: (usize, usize))
    ensures
        r.0 == brick_columns(),
        r.1 == brick_rows(),
        r.0 >= 1,
        r.1 >= 1,
{
    let paddle_y = BOTTOM_WALL + GAP_BETWEEN_PADDLE_AND_FLOOR;
    let total_width = (RIGHT_WALL - LEFT_WALL) - 2 * GAP_BETWEEN_BRICKS_AND_SIDES;
    let bottom_edge = paddle_y + GAP_BETWEEN_PADDLE_AND_BRICKS;
    let total_height = TOP_WALL - bottom_edge - GAP_BETWEEN_BRICKS_AND_CEILING;
    let columns = total_width / (BRICK_WIDTH + GAP_BETWEEN_BRICKS);
    let rows = total_height / (BRICK_HEIGHT + GAP_BETWEEN_BRICKS);
    (columns as usize, rows as usize)
}

/// The centre of the brick at `row` and `column`, in half pixels, since the
/// centred grid may put it between two pixels.
pub fn brick_center_doubled(row: usize, column: usize) -> (r: (i32, i32))
    requires
        row < brick_rows(),
        column < brick_columns(),
    ensures
        r.0 == brick_x_doubled(column as int),
        r.1 == brick_y_doubled(row as int),
{
    let (columns, _) = brick_grid();
    let n = columns as i32;
    assert(brick_rows() == 7 && brick_columns() == 8);
    assert(0 <= 2 * (row as int) * (BRICK_HEIGHT + GAP_BETWEEN_BRICKS) < 2 * 7 * 35) by (nonlinear_arith)
        requires
            row < 7,
            BRICK_HEIGHT + GAP_BETWEEN_BRICKS == 35,
    ;
    assert(0 <= 2 * (column as int) * (BRICK_WIDTH + GAP_BETWEEN_BRICKS) < 2 * 8 * 105) by (nonlinear_arith)
        requires
            column < 8,
            BRICK_WIDTH + GAP_BETWEEN_BRICKS == 105,
    ;
    let bottom_edge = BOTTOM_WALL + GAP_BETWEEN_PADDLE_AND_FLOOR + GAP_BETWEEN_PADDLE_AND_BRICKS;
    let x = (LEFT_WALL + RIGHT_WALL) - n * BRICK_WIDTH - (n - 1) * GAP_BETWEEN_BRICKS + BRICK_WIDTH
        + 2 * (column as i32) * (BRICK_WIDTH + GAP_BETWEEN_BRICKS);
    let y = 2 * bottom_edge + BRICK_HEIGHT + 2 * (row as i32) * (BRICK_HEIGHT + GAP_BETWEEN_BRICKS);
    (x, y)
}

} // verus!
