use sha2::Digest;
use snake_verifier::game::{Direction, Position, VerificationError};
use snake_verifier::integrity::{
    encode_state, i32_le_bytes, verify, verify_game, verify_with_digest, GameClaim, GameWitness,
};
use snake_verifier::replay::{replay, ReplayOutcome};

fn p(x: i32, y: i32) -> Position {
    Position::new(x, y)
}

fn start() -> Vec<Position> {
    vec![p(5, 5), p(4, 5), p(3, 5)]
}

fn digest_of(snake: &Vec<Position>, width: i32, height: i32) -> [u8; 32] {
    sha2::Sha256::digest(encode_state(snake, width, height).as_slice()).into()
}

fn honest_claim() -> (GameClaim, GameWitness) {
    let witness = GameWitness { moves: vec![Direction::Right], food: vec![p(6, 5)] };
    let final_snake = vec![p(6, 5), p(5, 5), p(4, 5), p(3, 5)];
    let claim = GameClaim {
        grid_width: 10,
        grid_height: 10,
        initial_snake: start(),
        final_state_hash: digest_of(&final_snake, 10, 10),
        score: 10,
        final_length: 4,
    };
    (claim, witness)
}

#[test]
fn little_endian_bytes() {
    assert_eq!(i32_le_bytes(1), [1, 0, 0, 0]);
    assert_eq!(i32_le_bytes(0x01020304), [4, 3, 2, 1]);
    assert_eq!(i32_le_bytes(-1), [255, 255, 255, 255]);
}

#[test]
fn state_encoding_order() {
    let bytes = encode_state(&vec![p(1, 2), p(1, 3)], 3, 4);
    assert_eq!(bytes, vec![1, 0, 0, 0, 2, 0, 0, 0, 1, 0, 0, 0, 3, 0, 0, 0, 3, 0, 0, 0, 4, 0, 0, 0]);
    assert_eq!(encode_state(&vec![], 7, 8), vec![7, 0, 0, 0, 8, 0, 0, 0]);
}

#[test]
fn honest_claim_verifies() {
    let (claim, witness) = honest_claim();
    assert_eq!(verify_game(&claim, &witness), Ok(()));
    let outcome = replay(&claim.initial_snake, &witness.food, &witness.moves, 10, 10).unwrap();
    assert_eq!(verify(&claim, &outcome), Ok(()));
}

#[test]
fn digest_is_sha256_of_state() {
    // The claimed hash must be the SHA-256 of the encoded state, not the encoding itself.
    let (mut claim, witness) = honest_claim();
    let bytes = encode_state(&vec![p(6, 5), p(5, 5), p(4, 5), p(3, 5)], 10, 10);
    let mut raw = [0u8; 32];
    raw.copy_from_slice(&bytes[..32]);
    claim.final_state_hash = raw;
    assert_eq!(verify_game(&claim, &witness), Err(VerificationError::HashMismatch));
}

#[test]
fn any_changed_hash_byte_is_a_mismatch() {
    let (claim, witness) = honest_claim();
    let outcome = replay(&claim.initial_snake, &witness.food, &witness.moves, 10, 10).unwrap();
    for i in 0..32 {
        let mut altered = claim.clone();
        altered.final_state_hash[i] ^= 0x01;
        assert_eq!(verify(&altered, &outcome), Err(VerificationError::HashMismatch));
        assert_eq!(verify_game(&altered, &witness), Err(VerificationError::HashMismatch));
        let again = replay(&altered.initial_snake, &witness.food, &witness.moves, 10, 10).unwrap();
        assert_eq!(again, outcome);
    }
}

#[test]
fn wrong_score_is_rejected() {
    let (mut claim, witness) = honest_claim();
    claim.score = 20;
    assert_eq!(verify_game(&claim, &witness), Err(VerificationError::ScoreMismatch));
    claim.score = 11;
    assert_eq!(verify_game(&claim, &witness), Err(VerificationError::ScoreMismatch));
}

#[test]
fn length_off_by_one_fails_length_check() {
    let (mut claim, witness) = honest_claim();
    claim.final_length = 5;
    assert_eq!(verify_game(&claim, &witness), Err(VerificationError::LengthMismatch));
    claim.final_length = 3;
    assert_eq!(verify_game(&claim, &witness), Err(VerificationError::LengthMismatch));
}

#[test]
fn collision_errors_pass_through_verification() {
    let (claim, _) = honest_claim();
    let witness = GameWitness { moves: vec![Direction::Left], food: vec![] };
    assert_eq!(verify_game(&claim, &witness), Err(VerificationError::IllegalReversal));
}

#[test]
fn score_not_whole_food_is_invalid() {
    let snake = vec![p(1, 1)];
    let digest = digest_of(&snake, 3, 3);
    let outcome = ReplayOutcome { snake: snake.clone(), foods_eaten: 0, score: 15, final_length: 1 };
    let claim = GameClaim {
        grid_width: 3,
        grid_height: 3,
        initial_snake: snake,
        final_state_hash: digest,
        score: 15,
        final_length: 1,
    };
    assert_eq!(verify(&claim, &outcome), Err(VerificationError::InvalidClaim));
    assert_eq!(verify_with_digest(&claim, &outcome, &digest), Err(VerificationError::InvalidClaim));
}

#[test]
fn checks_run_in_order() {
    let (claim, _) = honest_claim();
    let outcome = ReplayOutcome { snake: vec![p(0, 0)], foods_eaten: 0, score: 0, final_length: 1 };
    assert_eq!(verify_with_digest(&claim, &outcome, &[0u8; 32]), Err(VerificationError::ScoreMismatch));
    let outcome = ReplayOutcome { snake: vec![p(0, 0)], foods_eaten: 1, score: 10, final_length: 1 };
    assert_eq!(verify_with_digest(&claim, &outcome, &[0u8; 32]), Err(VerificationError::LengthMismatch));
    let outcome = ReplayOutcome { snake: vec![p(0, 0)], foods_eaten: 1, score: 10, final_length: 4 };
    assert_eq!(verify_with_digest(&claim, &outcome, &[0u8; 32]), Err(VerificationError::HashMismatch));
    assert_eq!(verify_with_digest(&claim, &outcome, &claim.final_state_hash), Ok(()));
}

#[test]
fn invalid_setup_fails_verification() {
    let (mut claim, witness) = honest_claim();
    claim.grid_width = 0;
    assert_eq!(verify_game(&claim, &witness), Err(VerificationError::InvalidClaim));
}
