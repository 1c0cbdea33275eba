use vstd::prelude::*;
use crate::session::{Phase, ReplaySession};
use crate::game::{
    Position, Direction, VerificationError, POINTS_PER_FOOD, in_grid, target, target_in_grid,
    target_pos, adjacent, distinct, valid_snake,
};

verus! {

/// Whether the head landing on `c` eats the next pending food.
pub open spec fn eats(food: Seq<Position>, eaten: nat, c: Position) -> bool {
    eaten < food.len() && food[eaten as int] == c
}

/// One tick of the game on a snake (head first) with `eaten` foods consumed
/// so far: the new snake and food count, or the collision that ends the game.
/// The tail leaves its cell in the same tick, unless the snake grows, so the
/// head may enter the cell the tail has just vacated.
pub open spec fn step_result(
    snake: Seq<Position>,
    food: Seq<Position>,
    eaten: nat,
    d: Direction,
    width: int,
    height: int,
) -> Result<(Seq<Position>, nat), VerificationError> {
    if !target_in_grid(snake[0], d, width, height) {
        Err(VerificationError::WallCollision)
    } else {
        let c = target_pos(snake[0], d);
        let grow = eats(food, eaten, c);
        let body = if grow { snake } else { snake.drop_last() };
        if snake.len() >= 2 && c == snake[1] {
            Err(VerificationError::IllegalReversal)
        } else if body.contains(c) {
            Err(VerificationError::SelfCollision)
        } else {
            Ok((seq![c] + body, if grow { eaten + 1 } else { eaten }))
        }
    }
}

/// The game run over all of `moves`, stopping at the first collision.
pub open spec fn run(
    snake: Seq<Position>,
    food: Seq<Position>,
    eaten: nat,
    moves: Seq<Direction>,
    width: int,
    height: int,
) -> Result<(Seq<Position>, nat), VerificationError>
    decreases moves.len(),
{
    if moves.len() == 0 {
        Ok((snake, eaten))
    } else {
        match step_result(snake, food, eaten, moves[0], width, height) {
            Ok((s, e)) => run(s, food, e, moves.drop_first(), width, height),
            Err(err) => Err(err),
        }
    }
}

/// The inputs a replay accepts: a positive grid, a well-formed initial snake,
/// and food that lies in the grid and off the initial snake.
pub open spec fn valid_setup(snake: Seq<Position>, food: Seq<Position>, width: int, height: int) -> bool {
    &&& width > 0
    &&& height > 0
    &&& valid_snake(snake, width, height)
    &&& forall|i: int| 0 <= i < food.len() ==> #[trigger] in_grid(food[i], width, height)
    &&& forall|i: int| 0 <= i < food.len() ==> !snake.contains(#[trigger] food[i])
}

/// The whole replay: the final snake and the number of foods eaten, or the
/// error that rejects the game.
pub open spec fn replay_result(
    snake: Seq<Position>,
    food: Seq<Position>,
    moves: Seq<Direction>,
    width: int,
    height: int,
) -> Result<(Seq<Position>, nat), VerificationError> {
    if !valid_setup(snake, food, width, height) {
        Err(VerificationError::InvalidClaim)
    } else {
        run(snake, food, 0, moves, width, height)
    }
}

/// The result of a replay that ran through every move.
#[derive(Clone, Debug, PartialEq, Eq)]
pub struct ReplayOutcome {
    /// The final snake, head first.
    pub snake: Vec<Position>,
    pub foods_eaten: usize,
    pub score: u128,
    pub final_length: usize,
}

impl ReplayOutcome {
    /// The outcome describes the final snake `s` after `e` foods.
    pub open spec fn describes(&self, s: Seq<Position>, e: nat) -> bool {
        &&& self.snake@ == s
        &&& self.foods_eaten == e
        &&& self.score == e * POINTS_PER_FOOD
        &&& self.final_length == s.len()
    }
}

/// What `replay` returns for the given inputs: the outcome that describes
/// `replay_result`, or its error.
pub open spec fn replay_post(
    snake: Seq<Position>,
    food: Seq<Position>,
    moves: Seq<Direction>,
    width: int,
    height: int,
    r: Result<ReplayOutcome, VerificationError>,
) -> bool {
    match replay_result(snake, food, moves, width, height) {
        Ok((s, e)) => r is Ok && r->Ok_0.describes(s, e),
        Err(err) => r == Err::<ReplayOutcome, VerificationError>(err),
    }
}

/// Whether `p` is one of the cells of `s`.
pub fn contains_position(s: &Vec<Position>, p: Position) -> (r: bool)
    ensures
        r == s@.contains(p),
{
    let mut i: usize = 0;
    while i < s.len()
        invariant
            i <= s.len(),
            forall|j: int| 0 <= j < i ==> s@[j] != p,
        decreases s.len() - i,
    {
        if s[i] == p {
            assert(s@[i as int] == p);
            return true;
        }
        i = i + 1;
    }
    false
}

/// Whether `p` is one of the first `n` cells of `s`.
pub fn contains_in_prefix(s: &Vec<Position>, p: Position, n: usize) -> (r: bool)
    requires
        n <= s.len(),
    ensures
        r == s@.take(n as int).contains(p),
{
    let mut i: usize = 0;
    while i < n
        invariant
            n <= s.len(),
            i <= n,
            forall|j: int| 0 <= j < i ==> s@[j] != p,
        decreases n - i,
    {
        if s[i] == p {
            assert(s@.take(n as int)[i as int] == p);
            return true;
        }
        i = i + 1;
    }
    false
}

/// Advances the game by one move. On success the snake and the food count
/// become those of `step_result`; on a collision the error is returned and
/// both are left as they were.
pub fn step(
    snake: &mut Vec<Position>,
    food: &Vec<Position>,
    eaten: &mut usize,
    d: Direction,
    width: i32,
    height: i32,
) -> (r: Result<(), VerificationError>)
    requires
        old(snake).len() >= 1,
        *old(eaten) <= food.len(),
    ensures
        match step_result(old(snake)@, food@, *old(eaten) as nat, d, width as int, height as int) {
            Ok((s, e)) => r is Ok && final(snake)@ == s && *final(eaten) == e,
            Err(err) => r == Err::<(), VerificationError>(err) && final(snake)@ == old(snake)@
                && *final(eaten) == *old(eaten),
        },
{
    let head = snake[0];
    let (dx, dy): (i64, i64) = match d {
        Direction::Up => (0, -1),
        Direction::Down => (0, 1),
        Direction::Left => (-1, 0),
        Direction::Right => (1, 0),
    };
    let nx: i64 = head.x as i64 + dx;
    let ny: i64 = head.y as i64 + dy;
    assert(nx == target(head, d).0 && ny == target(head, d).1);
    if nx < 0 || nx >= width as i64 || ny < 0 || ny >= height as i64 {
        return Err(VerificationError::WallCollision);
    }
    let c = Position { x: nx as i32, y: ny as i32 };
    assert(c == target_pos(head, d));
    let grow = *eaten < food.len() && food[*eaten] == c;
    if snake.len() >= 2 && snake[1] == c {
        return Err(VerificationError::IllegalReversal);
    }
    let kept: usize = if grow { snake.len() } else { snake.len() - 1 };
    assert(snake@.take(kept as int) =~= (if grow { snake@ } else { snake@.drop_last() }));
    if contains_in_prefix(snake, c, kept) {
        return Err(VerificationError::SelfCollision);
    }
    if !grow {
        snake.pop();
    }
    snake.insert(0, c);
    assert(snake@ =~= seq![c] + (if grow { old(snake)@ } else { old(snake)@.drop_last() }));
    if grow {
        *eaten = *eaten + 1;
    }
    Ok(())
}

/// Whether the grid, the initial snake and the food queue are acceptable.
pub fn check_setup(snake: &Vec<Position>, food: &Vec<Position>, width: i32, height: i32) -> (r: bool)
    ensures
        r == valid_setup(snake@, food@, width as int, height as int),
{
    if width <= 0 || height <= 0 || snake.len() == 0 {
        return false;
    }
    let mut i: usize = 0;
    while i < snake.len()
        invariant
            width > 0,
            height > 0,
            i <= snake.len(),
            forall|k: int| 0 <= k < i ==> #[trigger] in_grid(snake@[k], width as int, height as int),
            forall|k: int| 0 < k < i ==> adjacent(snake@[k - 1], #[trigger] snake@[k]),
            forall|a: int, b: int| 0 <= a < b < i ==> snake@[a] != snake@[b],
        decreases snake.len() - i,
    {
        let p = snake[i];
        if p.x < 0 || p.x >= width || p.y < 0 || p.y >= height {
            assert(!in_grid(snake@[i as int], width as int, height as int));
            return false;
        }
        if i > 0 {
            let q = snake[i - 1];
            let dx: i64 = p.x as i64 - q.x as i64;
            let dy: i64 = p.y as i64 - q.y as i64;
            let next_to = ((dx == 1 || dx == -1) && dy == 0) || ((dy == 1 || dy == -1) && dx == 0);
            if !next_to {
                assert(!adjacent(snake@[i - 1], snake@[i as int]));
                return false;
            }
        }
        let mut j: usize = 0;
        while j < i
            invariant
                i < snake.len(),
                j <= i,
                p == snake@[i as int],
                forall|a: int| 0 <= a < j ==> snake@[a] != p,
            decreases i - j,
        {
            if snake[j] == p {
                assert(!distinct(snake@));
                return false;
            }
            j = j + 1;
        }
        i = i + 1;
    }
    assert(valid_snake(snake@, width as int, height as int));
    let mut k: usize = 0;
    while k < food.len()
        invariant
            valid_snake(snake@, width as int, height as int),
            k <= food.len(),
            forall|a: int| 0 <= a < k ==> #[trigger] in_grid(food@[a], width as int, height as int),
            forall|a: int| 0 <= a < k ==> !snake@.contains(#[trigger] food@[a]),
        decreases food.len() - k,
    {
        let f = food[k];
        if f.x < 0 || f.x >= width || f.y < 0 || f.y >= height {
            assert(!in_grid(food@[k as int], width as int, height as int));
            return false;
        }
        if contains_position(snake, f) {
            return false;
        }
        k = k + 1;
    }
    true
}

/// Replays `moves` from the initial snake, eating from `food` in order.
/// Stops at the first collision; rejects an unacceptable setup with
/// `InvalidClaim`.
pub fn replay(
    initial_snake: &Vec<Position>,
    food: &Vec<Position>,
    moves: &Vec<Direction>,
    width: i32,
    height: i32,
) -> (r: Result<ReplayOutcome, VerificationError>)
    ensures
        replay_post(initial_snake@, food@, moves@, width as int, height as int, r),
{
    let mut session = ReplaySession::new(initial_snake.clone(), food.clone(), width, height);
    session.start();
    if session.phase != Phase::Running {
        return Err(VerificationError::InvalidClaim);
    }
    let mut i: usize = 0;
    assert(moves@.subrange(0, moves@.len() as int) =~= moves@);
    while i < moves.len()
        invariant
            valid_setup(initial_snake@, food@, width as int, height as int),
            session.wf(),
            session.phase == Phase::Running,
            session.food@ == food@,
            session.width == width,
            session.height == height,
            i <= moves.len(),
            run(initial_snake@, food@, 0, moves@, width as int, height as int) == run(
                session.snake@,
                food@,
                session.eaten as nat,
                moves@.subrange(i as int, moves@.len() as int),
                width as int,
                height as int,
            ),
        decreases moves.len() - i,
    {
        let ghost rest = moves@.subrange(i as int, moves@.len() as int);
        assert(rest[0] == moves@[i as int]);
        assert(rest.drop_first() =~= moves@.subrange(i + 1, moves@.len() as int));
        let ghost before = session.snake@;
        let ghost eaten_before = session.eaten as nat;
        session.advance(moves[i]);
        match session.phase {
            Phase::Failed(e) => {
                assert(run(before, food@, eaten_before, rest, width as int, height as int) == Err::<
                    (Seq<Position>, nat),
                    VerificationError,
                >(e));
                return Err(e);
            },
            _ => {},
        }
        i = i + 1;
    }
    assert(moves@.subrange(i as int, moves@.len() as int).len() == 0);
    session.finish();
    match session.outcome() {
        Some(o) => Ok(o),
        None => Err(VerificationError::InvalidClaim),
    }
}

} // verus!
