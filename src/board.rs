use vstd::prelude::*;
use crate::game::{Position, POINTS_PER_FOOD, in_grid, valid_snake};
use crate::replay::contains_position;


verus! {

/// Length of the snake that `GameState::new` places on the grid.
pub const INITIAL_LENGTH: usize = 3;

/// Whether a head moved onto `p` collides: it leaves the grid, turns back
/// onto the segment behind the head, lands on a segment that stays in place
/// this tick, or lands on the tail while the tail stays because the head
/// eats the food there. The tail otherwise leaves its cell in the same tick.
pub open spec fn collides(snake: Seq<Position>, food: Position, p: Position, width: int, height: int) -> bool {
    ||| !in_grid(p, width, height)
    ||| (snake.len() >= 2 && p == snake[1])
    ||| (exists|k: int| 1 <= k < snake.len() - 1 && snake[k] == p)
    ||| (snake.len() >= 2 && p == snake.last() && p == food)
}

/// The snake `GameState::new` places: three cells in a row, head at the
/// centre of the grid, facing right.
pub open spec fn start_snake(width: i32, height: i32) -> Seq<Position> {
    seq![
        Position { x: (width / 2) as i32, y: (height / 2) as i32 },
        Position { x: (width / 2 - 1) as i32, y: (height / 2) as i32 },
        Position { x: (width / 2 - 2) as i32, y: (height / 2) as i32 },
    ]
}

/// The first food: the origin, or the far corner when the snake covers the
/// origin.
pub open spec fn start_food(width: i32, height: i32) -> Position {
    if start_snake(width, height).contains(Position { x: 0, y: 0 }) {
        Position { x: (width - 1) as i32, y: (height - 1) as i32 }
    } else {
        Position { x: 0, y: 0 }
    }
}

/// A game board for direct use by a host: the snake (head first), the
/// current food and the grid size.
#[derive(Clone, Debug, PartialEq, Eq)]
pub struct GameState {
    pub snake: Vec<Position>,
    pub food: Position,
    pub grid_width: i32,
    pub grid_height: i32,
}

impl GameState {
    /// A horizontal snake of three cells with its head at the centre of the
    /// grid, facing right, and food off the snake. The snake fits on grids
    /// at least four cells wide and one cell high.
    pub fn new(grid_width: i32, grid_height: i32) -> (r: GameState)
        requires
            grid_width >= 4,
            grid_height >= 1,
        ensures
            r.snake@ == start_snake(grid_width, grid_height),
            valid_snake(r.snake@, grid_width as int, grid_height as int),
            r.food == start_food(grid_width, grid_height),
            in_grid(r.food, grid_width as int, grid_height as int),
            !r.snake@.contains(r.food),
            r.grid_width == grid_width,
            r.grid_height == grid_height,
    {
        let initial_x = grid_width / 2;
        let initial_y = grid_height / 2;
        let mut snake: Vec<Position> = Vec::new();
        snake.push(Position::new(initial_x, initial_y));
        snake.push(Position::new(initial_x - 1, initial_y));
        snake.push(Position::new(initial_x - 2, initial_y));
        assert(snake@ =~= start_snake(grid_width, grid_height));
        let origin = Position::new(0, 0);
        let food = if contains_position(&snake, origin) {
            Position::new(grid_width - 1, grid_height - 1)
        } else {
            origin
        };
        assert(!snake@.contains(food)) by {
            if snake@.contains(food) {
                let k = choose|k: int| 0 <= k < snake@.len() && snake@[k] == food;
                assert(snake@[k] == food);
            }
        }
        GameState { snake, food, grid_width, grid_height }
    }

    /// Whether moving the head onto `(head_x, head_y)` collides with a wall
    /// or with the snake, given that the tail leaves its cell this tick
    /// unless the head eats the food there.
    pub fn check_collision(&self, head_x: i32, head_y: i32) -> (r: bool)
        ensures
            r == collides(
                self.snake@,
                self.food,
                Position { x: head_x, y: head_y },
                self.grid_width as int,
                self.grid_height as int,
            ),
    {
        if head_x < 0 || head_x >= self.grid_width || head_y < 0 || head_y >= self.grid_height {
            return true;
        }
        let p = Position::new(head_x, head_y);
        let n = self.snake.len();
        if n >= 2 {
            if self.snake[1] == p {
                return true;
            }
            if self.snake[n - 1] == p && p == self.food {
                return true;
            }
        }
        let mut i: usize = 1;
        while i < n && i < n - 1
            invariant
                n == self.snake@.len(),
                1 <= i,
                p == (Position { x: head_x, y: head_y }),
                forall|k: int| 1 <= k < i && k < n - 1 ==> self.snake@[k] != p,
            decreases n - i,
        {
            if self.snake[i] == p {
                assert(self.snake@[i as int] == p);
                return true;
            }
            i = i + 1;
        }
        false
    }

    /// Whether `score` is exactly the score of the snake's current length:
    /// ten points for each cell grown beyond the initial three.
    pub fn verify_score(&self, score: i32) -> (r: bool)
        ensures
            r == (score >= 0 && (score as int) % (POINTS_PER_FOOD as int) == 0
                && self.snake@.len() == INITIAL_LENGTH + (score as int) / (POINTS_PER_FOOD as int)),
    {
        if score < 0 {
            return false;
        }
        let points = POINTS_PER_FOOD as i32;
        if score % points != 0 {
            return false;
        }
        let foods = (score / points) as usize;
        self.snake.len() >= INITIAL_LENGTH && self.snake.len() - INITIAL_LENGTH == foods
    }
}

} // verus!
