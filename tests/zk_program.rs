use sha2::Digest;
use snake_verifier::game::{Direction, Position};
use snake_verifier::integrity::encode_state;
use snake_verifier::program::{
    decode_cells, decode_moves, direction_from_byte, snake_game_verifier, SnakeGamePrivateInputs,
    SnakeGamePublicInputs,
};

fn inputs() -> (SnakeGamePublicInputs, SnakeGamePrivateInputs) {
    let final_snake = vec![Position::new(6, 5), Position::new(5, 5), Position::new(4, 5), Position::new(3, 5)];
    let hash: [u8; 32] = sha2::Sha256::digest(encode_state(&final_snake, 10, 10).as_slice()).into();
    let public = SnakeGamePublicInputs { grid_width: 10, grid_height: 10, game_state_hash: hash, score: 10, snake_length: 4 };
    let private = SnakeGamePrivateInputs {
        game_moves: vec![3],
        food_positions: vec![(6, 5)],
        initial_snake: vec![(5, 5), (4, 5), (3, 5)],
    };
    (public, private)
}

#[test]
fn honest_game_is_accepted() {
    let (public, private) = inputs();
    assert!(snake_game_verifier(public, private));
}

#[test]
fn length_off_by_one_is_rejected() {
    let (mut public, private) = inputs();
    public.snake_length = 3;
    assert!(!snake_game_verifier(public, private));
}

#[test]
fn unknown_move_code_is_rejected() {
    let (public, mut private) = inputs();
    private.game_moves = vec![7];
    assert!(!snake_game_verifier(public, private));
}

#[test]
fn oversized_coordinates_are_rejected() {
    let (public, mut private) = inputs();
    private.food_positions = vec![(u32::MAX, 5)];
    assert!(!snake_game_verifier(public.clone(), private));
    let (mut wide, private) = inputs();
    wide.grid_width = u32::MAX;
    assert!(!snake_game_verifier(wide, private));
}

#[test]
fn default_inputs_are_rejected() {
    assert!(!snake_game_verifier(SnakeGamePublicInputs::default(), SnakeGamePrivateInputs::default()));
}

#[test]
fn move_codes() {
    assert_eq!(direction_from_byte(0), Some(Direction::Up));
    assert_eq!(direction_from_byte(1), Some(Direction::Down));
    assert_eq!(direction_from_byte(2), Some(Direction::Left));
    assert_eq!(direction_from_byte(3), Some(Direction::Right));
    assert_eq!(direction_from_byte(4), None);
    assert_eq!(decode_moves(&vec![3, 0, 2]), Some(vec![Direction::Right, Direction::Up, Direction::Left]));
    assert_eq!(decode_moves(&vec![1, 9]), None);
}

#[test]
fn cell_conversion() {
    assert_eq!(decode_cells(&vec![(1, 2), (0, 0)]), Some(vec![Position::new(1, 2), Position::new(0, 0)]));
    assert_eq!(decode_cells(&vec![(1, 0x8000_0000)]), None);
}
