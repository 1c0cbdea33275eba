use vstd::prelude::*;
use sha2::Digest;
use crate::game::{Position, Direction, VerificationError, POINTS_PER_FOOD};
use crate::replay::{ReplayOutcome, replay, replay_result};

verus! {

/// The digest the commitment uses for a byte string.
pub uninterp spec fn sha256_of(data: Seq<u8>) -> Seq<u8>;

/// Relies on sha2::Sha256::digest (the `digest::Digest` trait): the SHA-256
/// digest of `data`, which depends on the bytes alone and is 32 bytes long.
#[verifier::external_body]
fn sha256(data: &Vec<u8>) -> (r: [u8; 32])
    ensures
        r@ == sha256_of(data@),
{
    sha2::Sha256::digest(data.as_slice()).into()
}

/// The four bytes of `v`, least significant first (two's complement).
pub open spec fn le_bytes(v: i32) -> Seq<u8> {
    let u = v as u32;
    seq![
        (u % 256) as u8,
        ((u / 256) % 256) as u8,
        ((u / 65536) % 256) as u8,
        (u / 16777216) as u8,
    ]
}

/// The cells of a snake, head first, each as `x` then `y`.
pub open spec fn snake_bytes(s: Seq<Position>) -> Seq<u8>
    decreases s.len(),
{
    if s.len() == 0 {
        Seq::empty()
    } else {
        snake_bytes(s.drop_last()) + le_bytes(s.last().x) + le_bytes(s.last().y)
    }
}

/// The serialized final state: the snake head to tail, then the grid's width
/// and height.
pub open spec fn state_bytes(s: Seq<Position>, width: i32, height: i32) -> Seq<u8> {
    snake_bytes(s) + le_bytes(width) + le_bytes(height)
}

/// The public commitment to the outcome of a game.
#[derive(Clone, Debug, PartialEq, Eq)]
pub struct GameClaim {
    pub grid_width: i32,
    pub grid_height: i32,
    /// The initial snake, head first.
    pub initial_snake: Vec<Position>,
    pub final_state_hash: [u8; 32],
    pub score: u32,
    pub final_length: usize,
}

/// The private data that justifies a claim.
#[derive(Clone, Debug, PartialEq, Eq)]
pub struct GameWitness {
    pub moves: Vec<Direction>,
    pub food: Vec<Position>,
}

/// The checks of a claimed score, length and state digest against replayed
/// ones, in order; the first one that fails gives the error.
pub open spec fn claim_check(
    claimed_score: int,
    claimed_length: int,
    claimed_hash: Seq<u8>,
    score: int,
    length: int,
    digest: Seq<u8>,
) -> Result<(), VerificationError> {
    if score != claimed_score {
        Err(VerificationError::ScoreMismatch)
    } else if length != claimed_length {
        Err(VerificationError::LengthMismatch)
    } else if digest != claimed_hash {
        Err(VerificationError::HashMismatch)
    } else if claimed_score % (POINTS_PER_FOOD as int) != 0 {
        Err(VerificationError::InvalidClaim)
    } else {
        Ok(())
    }
}

/// `claim_check` on the fields of a claim.
pub open spec fn check_claim(claim: GameClaim, score: int, length: int, digest: Seq<u8>) -> Result<(), VerificationError> {
    claim_check(claim.score as int, claim.final_length as int, claim.final_state_hash@, score, length, digest)
}

/// The digest of the final state an outcome describes, on the claim's grid.
pub open spec fn outcome_digest(claim: GameClaim, outcome: ReplayOutcome) -> Seq<u8> {
    sha256_of(state_bytes(outcome.snake@, claim.grid_width, claim.grid_height))
}

/// The verdict on a game: replay it, then check the claimed score, length
/// and digest against the outcome.
pub open spec fn verdict(
    width: i32,
    height: i32,
    snake: Seq<Position>,
    food: Seq<Position>,
    moves: Seq<Direction>,
    claimed_hash: Seq<u8>,
    claimed_score: int,
    claimed_length: int,
) -> Result<(), VerificationError> {
    match replay_result(snake, food, moves, width as int, height as int) {
        Err(e) => Err(e),
        Ok((s, e)) => claim_check(
            claimed_score,
            claimed_length,
            claimed_hash,
            e * POINTS_PER_FOOD,
            s.len() as int,
            sha256_of(state_bytes(s, width, height)),
        ),
    }
}

/// The full verdict on a claim and its witness.
pub open spec fn game_result(claim: GameClaim, witness: GameWitness) -> Result<(), VerificationError> {
    verdict(
        claim.grid_width,
        claim.grid_height,
        claim.initial_snake@,
        witness.food@,
        witness.moves@,
        claim.final_state_hash@,
        claim.score as int,
        claim.final_length as int,
    )
}

/// The little-endian bytes of `v`.
pub fn i32_le_bytes(v: i32) -> (r: [u8; 4])
    ensures
        r@ == le_bytes(v),
{
    let u = v as u32;
    let r = [(u % 256) as u8, ((u / 256) % 256) as u8, ((u / 65536) % 256) as u8, (u / 16777216) as u8];
    assert(r@ =~= le_bytes(v));
    r
}

/// Appends the four bytes of `v` to `out`.
fn push_i32(out: &mut Vec<u8>, v: i32)
    ensures
        final(out)@ == old(out)@ + le_bytes(v),
{
    let b = i32_le_bytes(v);
    out.push(b[0]);
    out.push(b[1]);
    out.push(b[2]);
    out.push(b[3]);
    assert(final(out)@ =~= old(out)@ + le_bytes(v));
}

/// Serializes a final state: the snake head to tail, then the grid size.
pub fn encode_state(snake: &Vec<Position>, width: i32, height: i32) -> (r: Vec<u8>)
    ensures
        r@ == state_bytes(snake@, width, height),
{
    let mut out: Vec<u8> = Vec::new();
    let mut i: usize = 0;
    assert(snake@.subrange(0, 0) =~= Seq::<Position>::empty());
    while i < snake.len()
        invariant
            i <= snake.len(),
            out@ == snake_bytes(snake@.subrange(0, i as int)),
        decreases snake.len() - i,
    {
        let p = snake[i];
        let ghost prefix = snake@.subrange(0, i as int + 1);
        assert(prefix.drop_last() =~= snake@.subrange(0, i as int));
        assert(prefix.last() == p);
        push_i32(&mut out, p.x);
        push_i32(&mut out, p.y);
        i = i + 1;
    }
    assert(snake@.subrange(0, i as int) =~= snake@);
    push_i32(&mut out, width);
    push_i32(&mut out, height);
    out
}

/// Checks a claim against an outcome, given the digest of the outcome's
/// final state.
pub fn verify_with_digest(claim: &GameClaim, outcome: &ReplayOutcome, digest: &[u8; 32]) -> (r: Result<(), VerificationError>)
    ensures
        r == check_claim(*claim, outcome.score as int, outcome.final_length as int, digest@),
{
    if outcome.score != claim.score as u128 {
        return Err(VerificationError::ScoreMismatch);
    }
    if outcome.final_length != claim.final_length {
        return Err(VerificationError::LengthMismatch);
    }
    let mut i: usize = 0;
    while i < 32
        invariant
            i <= 32,
            outcome.score == claim.score,
            outcome.final_length == claim.final_length,
            digest@.len() == 32,
            claim.final_state_hash@.len() == 32,
            forall|k: int| 0 <= k < i ==> digest@[k] == claim.final_state_hash@[k],
        decreases 32 - i,
    {
        if digest[i] != claim.final_state_hash[i] {
            assert(digest@[i as int] != claim.final_state_hash@[i as int]);
            return Err(VerificationError::HashMismatch);
        }
        i = i + 1;
    }
    assert(digest@ =~= claim.final_state_hash@);
    if claim.score % POINTS_PER_FOOD != 0 {
        return Err(VerificationError::InvalidClaim);
    }
    Ok(())
}

/// Checks a claim against a replayed outcome: score, final length, digest of
/// the final state (on the claim's grid), and a score that is a whole number
/// of foods.
pub fn verify(claim: &GameClaim, outcome: &ReplayOutcome) -> (r: Result<(), VerificationError>)
    ensures
        r == check_claim(*claim, outcome.score as int, outcome.final_length as int, outcome_digest(*claim, *outcome)),
{
    let bytes = encode_state(&outcome.snake, claim.grid_width, claim.grid_height);
    let digest = sha256(&bytes);
    verify_with_digest(claim, outcome, &digest)
}

/// Replays the witness from the claim's initial state and checks the claim
/// against the outcome.
pub fn verify_game(claim: &GameClaim, witness: &GameWitness) -> (r: Result<(), VerificationError>)
    ensures
        r == game_result(*claim, *witness),
{
    let outcome = replay(&claim.initial_snake, &witness.food, &witness.moves, claim.grid_width, claim.grid_height);
    match outcome {
        Err(e) => Err(e),
        Ok(o) => verify(claim, &o),
    }
}

} // verus!
