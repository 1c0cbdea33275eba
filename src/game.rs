use vstd::prelude::*;

verus! {

/// A cell of the grid. `x` grows to the right, `y` grows downwards.
#[derive(Clone, Copy, Debug, PartialEq, Eq, Structural)]
pub struct Position {
    pub x: i32,
    pub y: i32,
}

impl Position {
    pub fn new(x: i32, y: i32) -> (r: Position)
        ensures
            r == (Position { x, y }),
    {
        Position { x, y }
    }
}

/// One tick of the game: the direction in which the head moves.
#[derive(Clone, Copy, Debug, PartialEq, Eq, Structural)]
pub enum Direction {
    Up,
    Down,
    Left,
    Right,
}

/// Everything that can make a replay or a claim fail.
#[derive(Clone, Copy, Debug, PartialEq, Eq, Structural)]
pub enum VerificationError {
    WallCollision,
    SelfCollision,
    IllegalReversal,
    ScoreMismatch,
    LengthMismatch,
    HashMismatch,
    InvalidClaim,
}

/// Points awarded for each food eaten.
pub const POINTS_PER_FOOD: u32 = 10;

pub open spec fn in_grid(p: Position, width: int, height: int) -> bool {
    0 <= p.x < width && 0 <= p.y < height
}

/// Horizontal and vertical offset of a move.
pub open spec fn delta(d: Direction) -> (int, int) {
    match d {
        Direction::Up => (0, -1),
        Direction::Down => (0, 1),
        Direction::Left => (-1, 0),
        Direction::Right => (1, 0),
    }
}

/// The cell the head would reach, as unbounded integers.
pub open spec fn target(p: Position, d: Direction) -> (int, int) {
    (p.x + delta(d).0, p.y + delta(d).1)
}

pub open spec fn target_in_grid(p: Position, d: Direction, width: int, height: int) -> bool {
    0 <= target(p, d).0 < width && 0 <= target(p, d).1 < height
}

/// The target cell as a position; meaningful when it lies in the grid.
pub open spec fn target_pos(p: Position, d: Direction) -> Position {
    Position { x: target(p, d).0 as i32, y: target(p, d).1 as i32 }
}

/// Two cells that share a side.
pub open spec fn adjacent(a: Position, b: Position) -> bool {
    ((a.x - b.x == 1 || b.x - a.x == 1) && a.y == b.y)
    || ((a.y - b.y == 1 || b.y - a.y == 1) && a.x == b.x)
}

/// No cell appears twice.
pub open spec fn distinct(s: Seq<Position>) -> bool {
    forall|i: int, j: int| 0 <= i < j < s.len() ==> s[i] != s[j]
}

/// A well-formed snake on a grid: non-empty, inside the grid, no cell twice,
/// and each segment next to the one before it.
pub open spec fn valid_snake(s: Seq<Position>, width: int, height: int) -> bool {
    &&& s.len() >= 1
    &&& forall|i: int| 0 <= i < s.len() ==> #[trigger] in_grid(s[i], width, height)
    &&& distinct(s)
    &&& forall|i: int| 0 < i < s.len() ==> adjacent(s[i - 1], #[trigger] s[i])
}

} // verus!
