//! Deterministic replay of a snake game and checking of a claimed outcome.
//!
//! A game is given by a grid, an initial snake, a queue of food positions and
//! a list of moves. The replay engine re-runs the game move by move; the
//! integrity checker compares the replayed outcome with a public claim
//! (score, final length and a digest of the final state).

pub mod game;
pub mod replay;
pub mod session;
pub mod integrity;
pub mod program;
pub mod board;
pub mod laws;
