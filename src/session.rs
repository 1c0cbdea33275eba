use vstd::prelude::*;
use crate::game::{Position, Direction, VerificationError, POINTS_PER_FOOD};
use crate::replay::{ReplayOutcome, step, step_result, valid_setup, check_setup};

verus! {

/// Where a replay stands. `Completed` and `Failed` are terminal.
#[derive(Clone, Copy, Debug, PartialEq, Eq, Structural)]
pub enum Phase {
    NotStarted,
    Running,
    Completed,
    Failed(VerificationError),
}

/// One replay, advanced a move at a time. It owns its snake (head first)
/// and its food queue, of which the first `eaten` entries are consumed.
#[derive(Clone, Debug)]
pub struct ReplaySession {
    pub snake: Vec<Position>,
    pub food: Vec<Position>,
    pub eaten: usize,
    pub width: i32,
    pub height: i32,
    pub phase: Phase,
}

/// The phase after a move, and on `Running` the new snake and food count.
pub open spec fn after_move(
    phase: Phase,
    snake: Seq<Position>,
    food: Seq<Position>,
    eaten: nat,
    d: Direction,
    width: int,
    height: int,
) -> (Phase, Seq<Position>, nat) {
    match phase {
        Phase::NotStarted => if !valid_setup(snake, food, width, height) {
            (Phase::Failed(VerificationError::InvalidClaim), snake, eaten)
        } else {
            after_running_move(snake, food, eaten, d, width, height)
        },
        Phase::Running => after_running_move(snake, food, eaten, d, width, height),
        _ => (phase, snake, eaten),
    }
}

pub open spec fn after_running_move(
    snake: Seq<Position>,
    food: Seq<Position>,
    eaten: nat,
    d: Direction,
    width: int,
    height: int,
) -> (Phase, Seq<Position>, nat) {
    match step_result(snake, food, eaten, d, width, height) {
        Ok((s, e)) => (Phase::Running, s, e),
        Err(err) => (Phase::Failed(err), snake, eaten),
    }
}

impl ReplaySession {
    /// A session that has not started has eaten nothing; a running or
    /// completed one has a snake and has not eaten past the end of its food
    /// queue.
    pub open spec fn wf(&self) -> bool {
        &&& self.phase == Phase::NotStarted ==> self.eaten == 0
        &&& (self.phase == Phase::Running || self.phase == Phase::Completed) ==> {
            &&& self.snake@.len() >= 1
            &&& self.eaten <= self.food@.len()
        }
    }

    /// The grid and the food queue stay as they were.
    pub open spec fn same_setup(&self, other: &ReplaySession) -> bool {
        &&& self.food@ == other.food@
        &&& self.width == other.width
        &&& self.height == other.height
    }

    /// A session that has not started yet.
    pub fn new(snake: Vec<Position>, food: Vec<Position>, width: i32, height: i32) -> (r: ReplaySession)
        ensures
            r.snake@ == snake@,
            r.food@ == food@,
            r.eaten == 0,
            r.width == width,
            r.height == height,
            r.phase == Phase::NotStarted,
            r.wf(),
    {
        ReplaySession { snake, food, eaten: 0, width, height, phase: Phase::NotStarted }
    }

    /// Checks the setup of a session that has not started: it is then
    /// running, or failed with `InvalidClaim`. Other phases are unchanged.
    pub fn start(&mut self)
        requires
            old(self).wf(),
        ensures
            final(self).wf(),
            final(self).same_setup(old(self)),
            final(self).snake@ == old(self).snake@,
            final(self).eaten == old(self).eaten,
            old(self).phase == Phase::NotStarted ==> final(self).phase == (if valid_setup(
                old(self).snake@,
                old(self).food@,
                old(self).width as int,
                old(self).height as int,
            ) {
                Phase::Running
            } else {
                Phase::Failed(VerificationError::InvalidClaim)
            }),
            old(self).phase != Phase::NotStarted ==> final(self).phase == old(self).phase,
    {
        if self.phase == Phase::NotStarted {
            if check_setup(&self.snake, &self.food, self.width, self.height) {
                self.phase = Phase::Running;
            } else {
                self.phase = Phase::Failed(VerificationError::InvalidClaim);
            }
        }
    }

    /// Plays one move. A session that has not started is started first; a
    /// collision fails the session with its error and leaves its snake and
    /// food count as they were; a terminal session is left as it is.
    pub fn advance(&mut self, d: Direction)
        requires
            old(self).wf(),
        ensures
            final(self).wf(),
            final(self).same_setup(old(self)),
            final(self).phase == after_move(
                old(self).phase,
                old(self).snake@,
                old(self).food@,
                old(self).eaten as nat,
                d,
                old(self).width as int,
                old(self).height as int,
            ).0,
            final(self).snake@ == after_move(
                old(self).phase,
                old(self).snake@,
                old(self).food@,
                old(self).eaten as nat,
                d,
                old(self).width as int,
                old(self).height as int,
            ).1,
            final(self).eaten == after_move(
                old(self).phase,
                old(self).snake@,
                old(self).food@,
                old(self).eaten as nat,
                d,
                old(self).width as int,
                old(self).height as int,
            ).2,
    {
        self.start();
        if self.phase == Phase::Running {
            match step(&mut self.snake, &self.food, &mut self.eaten, d, self.width, self.height) {
                Ok(()) => {},
                Err(e) => {
                    self.phase = Phase::Failed(e);
                },
            }
        }
    }

    /// Ends the move list: a session that has not started is started, and a
    /// running one is then completed. Terminal sessions are unchanged.
    pub fn finish(&mut self)
        requires
            old(self).wf(),
        ensures
            final(self).wf(),
            final(self).same_setup(old(self)),
            final(self).snake@ == old(self).snake@,
            final(self).eaten == old(self).eaten,
            old(self).phase == Phase::Running ==> final(self).phase == Phase::Completed,
            old(self).phase == Phase::NotStarted ==> final(self).phase == (if valid_setup(
                old(self).snake@,
                old(self).food@,
                old(self).width as int,
                old(self).height as int,
            ) {
                Phase::Completed
            } else {
                Phase::Failed(VerificationError::InvalidClaim)
            }),
            (old(self).phase is Completed || old(self).phase is Failed) ==> final(self).phase == old(self).phase,
    {
        self.start();
        if self.phase == Phase::Running {
            self.phase = Phase::Completed;
        }
    }

    /// The outcome of a completed session; `None` in any other phase.
    pub fn outcome(&self) -> (r: Option<ReplayOutcome>)
        requires
            self.wf(),
        ensures
            r is Some <==> self.phase == Phase::Completed,
            r is Some ==> r->Some_0.describes(self.snake@, self.eaten as nat),
    {
        if self.phase != Phase::Completed {
            return None;
        }
        let final_length = self.snake.len();
        let score: u128 = self.eaten as u128 * POINTS_PER_FOOD as u128;
        Some(ReplayOutcome { snake: self.snake.clone(), foods_eaten: self.eaten, score, final_length })
    }
}

} // verus!
