use vstd::prelude::*;
use crate::game::{
    Position, Direction, VerificationError, POINTS_PER_FOOD, target_in_grid, target_pos, distinct,
    in_grid, target, valid_snake,
};
use crate::replay::{ReplayOutcome, eats, step_result, run, valid_setup, replay_result, replay_post};
use crate::board::collides;
use crate::integrity::{GameClaim, GameWitness, game_result};

verus! {

/// A run that ends without a collision has added one cell per food eaten.
pub proof fn lemma_run_length(
    snake: Seq<Position>,
    food: Seq<Position>,
    eaten: nat,
    moves: Seq<Direction>,
    width: int,
    height: int,
)
    requires
        snake.len() >= 1,
    ensures
        match run(snake, food, eaten, moves, width, height) {
            Ok((s, e)) => s.len() >= 1 && s.len() + eaten == snake.len() + e,
            Err(_) => true,
        },
    decreases moves.len(),
{
    if moves.len() > 0 {
        match step_result(snake, food, eaten, moves[0], width, height) {
            Ok((s, e)) => {
                lemma_run_length(s, food, e, moves.drop_first(), width, height);
            },
            Err(_) => {},
        }
    }
}

/// A move that succeeds keeps the cells of the snake distinct.
pub proof fn lemma_step_keeps_distinct(
    snake: Seq<Position>,
    food: Seq<Position>,
    eaten: nat,
    d: Direction,
    width: int,
    height: int,
)
    requires
        snake.len() >= 1,
        distinct(snake),
    ensures
        match step_result(snake, food, eaten, d, width, height) {
            Ok((s, e)) => s.len() >= 1 && distinct(s),
            Err(_) => true,
        },
{
    if step_result(snake, food, eaten, d, width, height) is Ok {
        let c = target_pos(snake[0], d);
        let body = if eats(food, eaten, c) { snake } else { snake.drop_last() };
        let s = seq![c] + body;
        assert forall|i: int, j: int| 0 <= i < j < s.len() implies s[i] != s[j] by {
            if i == 0 {
                assert(s[j] == body[j - 1]);
                assert(!body.contains(c));
            } else {
                assert(s[i] == snake[i - 1] && s[j] == snake[j - 1]);
            }
        }
    }
}

/// A run that ends without a collision keeps the cells of the snake distinct.
pub proof fn lemma_run_keeps_distinct(
    snake: Seq<Position>,
    food: Seq<Position>,
    eaten: nat,
    moves: Seq<Direction>,
    width: int,
    height: int,
)
    requires
        snake.len() >= 1,
        distinct(snake),
    ensures
        match run(snake, food, eaten, moves, width, height) {
            Ok((s, e)) => s.len() >= 1 && distinct(s),
            Err(_) => true,
        },
    decreases moves.len(),
{
    if moves.len() > 0 {
        lemma_step_keeps_distinct(snake, food, eaten, moves[0], width, height);
        match step_result(snake, food, eaten, moves[0], width, height) {
            Ok((s, e)) => {
                lemma_run_keeps_distinct(s, food, e, moves.drop_first(), width, height);
            },
            Err(_) => {},
        }
    }
}

/// Every snake that a replay reaches, after any number of its moves, has no
/// cell twice.
pub proof fn law_reached_snake_is_distinct(
    snake: Seq<Position>,
    food: Seq<Position>,
    moves: Seq<Direction>,
    k: int,
    width: int,
    height: int,
)
    requires
        valid_setup(snake, food, width, height),
        0 <= k <= moves.len(),
        run(snake, food, 0, moves.take(k), width, height) is Ok,
    ensures
        run(snake, food, 0, moves.take(k), width, height)->Ok_0.0.len() >= 1,
        distinct(run(snake, food, 0, moves.take(k), width, height)->Ok_0.0),
{
    lemma_run_keeps_distinct(snake, food, 0, moves.take(k), width, height);
}

/// Running a sequence of moves is running its first `k` moves, then the rest
/// from the state they reach.
pub proof fn lemma_run_prefix(
    snake: Seq<Position>,
    food: Seq<Position>,
    eaten: nat,
    moves: Seq<Direction>,
    k: int,
    width: int,
    height: int,
)
    requires
        0 <= k <= moves.len(),
        run(snake, food, eaten, moves.take(k), width, height) is Ok,
    ensures
        run(snake, food, eaten, moves, width, height) == run(
            run(snake, food, eaten, moves.take(k), width, height)->Ok_0.0,
            food,
            run(snake, food, eaten, moves.take(k), width, height)->Ok_0.1,
            moves.skip(k),
            width,
            height,
        ),
    decreases k,
{
    if k == 0 {
        assert(moves.skip(0) =~= moves);
    } else {
        assert(moves.take(k)[0] == moves[0]);
        assert(moves.take(k).drop_first() =~= moves.drop_first().take(k - 1));
        assert(moves.skip(k) =~= moves.drop_first().skip(k - 1));
        match step_result(snake, food, eaten, moves[0], width, height) {
            Ok((s, e)) => {
                lemma_run_prefix(s, food, e, moves.drop_first(), k - 1, width, height);
            },
            Err(_) => {},
        }
    }
}

/// A replay that ends without error leaves a snake whose length is the
/// initial length plus the foods eaten, and a score of exactly ten points per
/// food.
pub proof fn law_length_and_score(
    snake: Seq<Position>,
    food: Seq<Position>,
    moves: Seq<Direction>,
    width: int,
    height: int,
    r: Result<ReplayOutcome, VerificationError>,
)
    requires
        replay_post(snake, food, moves, width, height, r),
        r is Ok,
    ensures
        r->Ok_0.final_length == snake.len() + r->Ok_0.foods_eaten,
        r->Ok_0.score == r->Ok_0.foods_eaten * POINTS_PER_FOOD,
{
    lemma_run_length(snake, food, 0, moves, width, height);
}

/// Two replays of the same inputs give the same outcome: the same error, or
/// the same final snake, food count, score and length.
pub proof fn law_replay_deterministic(
    snake: Seq<Position>,
    food: Seq<Position>,
    moves: Seq<Direction>,
    width: int,
    height: int,
    r1: Result<ReplayOutcome, VerificationError>,
    r2: Result<ReplayOutcome, VerificationError>,
)
    requires
        replay_post(snake, food, moves, width, height, r1),
        replay_post(snake, food, moves, width, height, r2),
    ensures
        r1 is Ok <==> r2 is Ok,
        r1 is Err ==> r1 == r2,
        r1 is Ok ==> {
            &&& r1->Ok_0.snake@ == r2->Ok_0.snake@
            &&& r1->Ok_0.foods_eaten == r2->Ok_0.foods_eaten
            &&& r1->Ok_0.score == r2->Ok_0.score
            &&& r1->Ok_0.final_length == r2->Ok_0.final_length
        },
{
}

/// Whatever moves came before, once the head stands where the next move
/// leaves the grid, the replay ends with `WallCollision`.
pub proof fn law_wall_move_collides(
    snake: Seq<Position>,
    food: Seq<Position>,
    moves: Seq<Direction>,
    k: int,
    width: int,
    height: int,
)
    requires
        valid_setup(snake, food, width, height),
        0 <= k < moves.len(),
        run(snake, food, 0, moves.take(k), width, height) is Ok,
        !target_in_grid(run(snake, food, 0, moves.take(k), width, height)->Ok_0.0[0], moves[k], width, height),
    ensures
        replay_result(snake, food, moves, width, height) == Err::<(Seq<Position>, nat), VerificationError>(
            VerificationError::WallCollision,
        ),
{
    lemma_run_prefix(snake, food, 0, moves, k, width, height);
    assert(moves.skip(k)[0] == moves[k]);
}

/// A move whose target is a cell of the body that stays (every cell when the
/// snake grows, every cell but the tail otherwise), other than the segment
/// behind the head, ends in `SelfCollision`.
pub proof fn law_body_move_collides(
    snake: Seq<Position>,
    food: Seq<Position>,
    eaten: nat,
    d: Direction,
    width: int,
    height: int,
)
    requires
        snake.len() >= 1,
        target_in_grid(snake[0], d, width, height),
        eats(food, eaten, target_pos(snake[0], d)) ==> snake.contains(target_pos(snake[0], d)),
        !eats(food, eaten, target_pos(snake[0], d)) ==> snake.drop_last().contains(target_pos(snake[0], d)),
        !(snake.len() >= 2 && target_pos(snake[0], d) == snake[1]),
    ensures
        step_result(snake, food, eaten, d, width, height) == Err::<(Seq<Position>, nat), VerificationError>(
            VerificationError::SelfCollision,
        ),
{
}

/// Whatever moves came before, a move into a cell of the body that stays,
/// other than the segment behind the head, ends the replay with
/// `SelfCollision`.
pub proof fn law_body_move_ends_replay(
    snake: Seq<Position>,
    food: Seq<Position>,
    moves: Seq<Direction>,
    k: int,
    width: int,
    height: int,
)
    requires
        valid_setup(snake, food, width, height),
        0 <= k < moves.len(),
        run(snake, food, 0, moves.take(k), width, height) is Ok,
        ({
            let reached = run(snake, food, 0, moves.take(k), width, height)->Ok_0;
            let c = target_pos(reached.0[0], moves[k]);
            &&& target_in_grid(reached.0[0], moves[k], width, height)
            &&& eats(food, reached.1, c) ==> reached.0.contains(c)
            &&& !eats(food, reached.1, c) ==> reached.0.drop_last().contains(c)
            &&& !(reached.0.len() >= 2 && c == reached.0[1])
        }),
    ensures
        replay_result(snake, food, moves, width, height) == Err::<(Seq<Position>, nat), VerificationError>(
            VerificationError::SelfCollision,
        ),
{
    let reached = run(snake, food, 0, moves.take(k), width, height)->Ok_0;
    lemma_run_length(snake, food, 0, moves.take(k), width, height);
    law_body_move_collides(reached.0, food, reached.1, moves[k], width, height);
    lemma_run_prefix(snake, food, 0, moves, k, width, height);
    assert(moves.skip(k)[0] == moves[k]);
}

/// A move into the cell that the tail leaves in the same tick is never a
/// `SelfCollision`.
pub proof fn law_vacated_tail_is_free(
    snake: Seq<Position>,
    food: Seq<Position>,
    eaten: nat,
    d: Direction,
    width: int,
    height: int,
)
    requires
        snake.len() >= 1,
        distinct(snake),
        target_in_grid(snake[0], d, width, height),
        target_pos(snake[0], d) == snake.last(),
        !eats(food, eaten, snake.last()),
    ensures
        step_result(snake, food, eaten, d, width, height) != Err::<(Seq<Position>, nat), VerificationError>(
            VerificationError::SelfCollision,
        ),
{
    let body = snake.drop_last();
    if body.contains(snake.last()) {
        let i = choose|i: int| 0 <= i < body.len() && body[i] == snake.last();
        assert(snake[i] == snake[snake.len() - 1]);
    }
}

/// After any prefix of a replay's moves, a next move into the cell that the
/// tail leaves in that tick does not end the replay with `SelfCollision`.
pub proof fn law_reached_tail_is_free(
    snake: Seq<Position>,
    food: Seq<Position>,
    moves: Seq<Direction>,
    k: int,
    width: int,
    height: int,
)
    requires
        valid_setup(snake, food, width, height),
        0 <= k < moves.len(),
        run(snake, food, 0, moves.take(k), width, height) is Ok,
        ({
            let reached = run(snake, food, 0, moves.take(k), width, height)->Ok_0;
            &&& target_in_grid(reached.0[0], moves[k], width, height)
            &&& target_pos(reached.0[0], moves[k]) == reached.0.last()
            &&& !eats(food, reached.1, reached.0.last())
        }),
    ensures
        ({
            let reached = run(snake, food, 0, moves.take(k), width, height)->Ok_0;
            step_result(reached.0, food, reached.1, moves[k], width, height)
                != Err::<(Seq<Position>, nat), VerificationError>(VerificationError::SelfCollision)
        }),
{
    let reached = run(snake, food, 0, moves.take(k), width, height)->Ok_0;
    law_reached_snake_is_distinct(snake, food, moves, k, width, height);
    law_vacated_tail_is_free(reached.0, food, reached.1, moves[k], width, height);
}

/// The board's collision test follows the replay rule: with the board's food
/// as the next pending food, a move collides on the board exactly when
/// replaying it fails.
pub proof fn law_board_matches_step(snake: Seq<Position>, food: Position, d: Direction, width: i32, height: i32)
    requires
        valid_snake(snake, width as int, height as int),
    ensures
        collides(snake, food, target_pos(snake[0], d), width as int, height as int)
            <==> step_result(snake, seq![food], 0, d, width as int, height as int) is Err,
{
    assert(in_grid(snake[0], width as int, height as int));
    let c = target_pos(snake[0], d);
    assert(c.x == target(snake[0], d).0 && c.y == target(snake[0], d).1);
    assert(c != snake[0]);
    assert(eats(seq![food], 0, c) == (c == food));
    if target_in_grid(snake[0], d, width as int, height as int) && !(snake.len() >= 2 && c == snake[1]) {
        let body = if c == food { snake } else { snake.drop_last() };
        if body.contains(c) {
            let k = choose|k: int| 0 <= k < body.len() && body[k] == c;
            assert(snake[k] == c);
            if k < snake.len() - 1 {
                assert(1 <= k < snake.len() - 1 && snake[k] == c);
            }
        }
        if exists|k: int| 1 <= k < snake.len() - 1 && snake[k] == c {
            let k = choose|k: int| 1 <= k < snake.len() - 1 && snake[k] == c;
            assert(body[k] == c);
        }
        if snake.len() >= 2 && c == snake.last() && c == food {
            assert(body[snake.len() - 1] == c);
        }
    }
}

/// Changing one byte of the digest in a claim that verifies, and nothing
/// else, leaves the replay as it was and makes the verdict `HashMismatch`.
pub proof fn law_hash_byte_change(
    claim: GameClaim,
    altered: GameClaim,
    witness: GameWitness,
    i: int,
    b: u8,
)
    requires
        game_result(claim, witness) is Ok,
        0 <= i < 32,
        b != claim.final_state_hash@[i],
        altered.final_state_hash@ == claim.final_state_hash@.update(i, b),
        altered.grid_width == claim.grid_width,
        altered.grid_height == claim.grid_height,
        altered.initial_snake@ == claim.initial_snake@,
        altered.score == claim.score,
        altered.final_length == claim.final_length,
    ensures
        replay_result(
            altered.initial_snake@,
            witness.food@,
            witness.moves@,
            altered.grid_width as int,
            altered.grid_height as int,
        ) == replay_result(
            claim.initial_snake@,
            witness.food@,
            witness.moves@,
            claim.grid_width as int,
            claim.grid_height as int,
        ),
        game_result(altered, witness) == Err::<(), VerificationError>(VerificationError::HashMismatch),
{
    assert(altered.final_state_hash@[i] != claim.final_state_hash@[i]);
    assert(altered.final_state_hash@ != claim.final_state_hash@);
}

} // verus!
