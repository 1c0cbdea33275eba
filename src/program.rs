use vstd::prelude::*;
use crate::game::{Position, Direction};
use crate::integrity::{GameClaim, GameWitness, verdict, verify_game};

verus! {

/// What a proof of a game makes public.
#[derive(Clone, Debug, Default)]
pub struct SnakeGamePublicInputs {
    pub grid_width: u32,
    pub grid_height: u32,
    pub game_state_hash: [u8; 32],
    pub score: u32,
    pub snake_length: u32,
}

/// What a proof of a game keeps private. Moves are coded one per byte:
/// 0 up, 1 down, 2 left, 3 right. Cells are `(x, y)`.
#[derive(Clone, Debug, Default)]
pub struct SnakeGamePrivateInputs {
    pub game_moves: Vec<u8>,
    pub food_positions: Vec<(u32, u32)>,
    pub initial_snake: Vec<(u32, u32)>,
}

/// The direction coded by a move byte below 4.
pub open spec fn move_of(b: u8) -> Direction {
    if b == 0 {
        Direction::Up
    } else if b == 1 {
        Direction::Down
    } else if b == 2 {
        Direction::Left
    } else {
        Direction::Right
    }
}

pub open spec fn moves_decodable(bytes: Seq<u8>) -> bool {
    forall|i: int| 0 <= i < bytes.len() ==> #[trigger] bytes[i] < 4
}

pub open spec fn decoded_moves(bytes: Seq<u8>) -> Seq<Direction> {
    bytes.map_values(|b: u8| move_of(b))
}

/// Every coordinate fits in an `i32`.
pub open spec fn cells_fit(cells: Seq<(u32, u32)>) -> bool {
    forall|i: int| 0 <= i < cells.len() ==> #[trigger] cells[i].0 <= i32::MAX && cells[i].1 <= i32::MAX
}

pub open spec fn as_positions(cells: Seq<(u32, u32)>) -> Seq<Position> {
    cells.map_values(|c: (u32, u32)| Position { x: c.0 as i32, y: c.1 as i32 })
}

/// The inputs can be read as a game: known move codes, and grid and cells
/// that fit the engine's coordinates.
pub open spec fn inputs_readable(public_inputs: SnakeGamePublicInputs, private_inputs: SnakeGamePrivateInputs) -> bool {
    &&& public_inputs.grid_width <= i32::MAX
    &&& public_inputs.grid_height <= i32::MAX
    &&& moves_decodable(private_inputs.game_moves@)
    &&& cells_fit(private_inputs.food_positions@)
    &&& cells_fit(private_inputs.initial_snake@)
}

/// The inputs are readable and the game they describe replays to exactly the
/// public score, length and final-state digest.
pub open spec fn accepts(public_inputs: SnakeGamePublicInputs, private_inputs: SnakeGamePrivateInputs) -> bool {
    &&& inputs_readable(public_inputs, private_inputs)
    &&& verdict(
        public_inputs.grid_width as i32,
        public_inputs.grid_height as i32,
        as_positions(private_inputs.initial_snake@),
        as_positions(private_inputs.food_positions@),
        decoded_moves(private_inputs.game_moves@),
        public_inputs.game_state_hash@,
        public_inputs.score as int,
        public_inputs.snake_length as int,
    ) is Ok
}

/// The direction coded by a move byte, if it is a known code.
pub fn direction_from_byte(b: u8) -> (r: Option<Direction>)
    ensures
        r is Some <==> b < 4,
        b < 4 ==> r == Some(move_of(b)),
{
    match b {
        0 => Some(Direction::Up),
        1 => Some(Direction::Down),
        2 => Some(Direction::Left),
        3 => Some(Direction::Right),
        _ => None,
    }
}

/// Decodes move bytes, or `None` if one of them is not a known code.
pub fn decode_moves(bytes: &Vec<u8>) -> (r: Option<Vec<Direction>>)
    ensures
        r is Some <==> moves_decodable(bytes@),
        r is Some ==> r->Some_0@ == decoded_moves(bytes@),
{
    let mut out: Vec<Direction> = Vec::new();
    let mut i: usize = 0;
    while i < bytes.len()
        invariant
            i <= bytes.len(),
            forall|k: int| 0 <= k < i ==> #[trigger] bytes@[k] < 4,
            out@ == decoded_moves(bytes@.take(i as int)),
        decreases bytes.len() - i,
    {
        match direction_from_byte(bytes[i]) {
            Some(d) => {
                out.push(d);
                assert(decoded_moves(bytes@.take(i as int + 1)) =~= decoded_moves(bytes@.take(i as int)).push(d));
            },
            None => {
                assert(!(bytes@[i as int] < 4));
                return None;
            },
        }
        i = i + 1;
    }
    assert(bytes@.take(i as int) =~= bytes@);
    Some(out)
}

/// Converts cells to positions, or `None` if a coordinate does not fit.
pub fn decode_cells(cells: &Vec<(u32, u32)>) -> (r: Option<Vec<Position>>)
    ensures
        r is Some <==> cells_fit(cells@),
        r is Some ==> r->Some_0@ == as_positions(cells@),
{
    let mut out: Vec<Position> = Vec::new();
    let mut i: usize = 0;
    while i < cells.len()
        invariant
            i <= cells.len(),
            forall|k: int| 0 <= k < i ==> #[trigger] cells@[k].0 <= i32::MAX && cells@[k].1 <= i32::MAX,
            out@ == as_positions(cells@.take(i as int)),
        decreases cells.len() - i,
    {
        let (x, y) = cells[i];
        if x > i32::MAX as u32 || y > i32::MAX as u32 {
            assert(!(cells@[i as int].0 <= i32::MAX && cells@[i as int].1 <= i32::MAX));
            return None;
        }
        let p = Position { x: x as i32, y: y as i32 };
        out.push(p);
        assert(as_positions(cells@.take(i as int + 1)) =~= as_positions(cells@.take(i as int)).push(p));
        i = i + 1;
    }
    assert(cells@.take(i as int) =~= cells@);
    Some(out)
}

/// Accepts a game exactly when its private moves and layout replay to the
/// public score, length and final-state digest.
pub fn snake_game_verifier(
    public_inputs: SnakeGamePublicInputs,
    private_inputs: SnakeGamePrivateInputs,
) -> (r: bool)
    ensures
        r == accepts(public_inputs, private_inputs),
{
    if public_inputs.grid_width > i32::MAX as u32 || public_inputs.grid_height > i32::MAX as u32 {
        return false;
    }
    let moves = match decode_moves(&private_inputs.game_moves) {
        Some(m) => m,
        None => return false,
    };
    let food = match decode_cells(&private_inputs.food_positions) {
        Some(f) => f,
        None => return false,
    };
    let snake = match decode_cells(&private_inputs.initial_snake) {
        Some(s) => s,
        None => return false,
    };
    let claim = GameClaim {
        grid_width: public_inputs.grid_width as i32,
        grid_height: public_inputs.grid_height as i32,
        initial_snake: snake,
        final_state_hash: public_inputs.game_state_hash,
        score: public_inputs.score,
        final_length: public_inputs.snake_length as usize,
    };
    let witness = GameWitness { moves, food };
    verify_game(&claim, &witness).is_ok()
}

} // verus!
