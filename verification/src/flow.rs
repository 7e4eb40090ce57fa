//! Game flow: the Start/Playing machine, the win check, and the composition
//! of all per-frame systems into one frame in their fixed order.

use vstd::prelude::*;
use crate::sim::AxisDir;
use crate::sim::GameState;
use crate::sim::Side;
use crate::sim::Sim;
use crate::sim::SimM;
use crate::sim::BALL_SPEED;
use crate::sim::PADDLE_SPEED;
use crate::sim::WIN_SCORE;
use crate::sim::wf;
use crate::ball::ball_apply;
use crate::ball::ball_physics;
use crate::collision::collision;
use crate::collision::collision_apply;
use crate::paddle::paddle_apply;
use crate::paddle::paddle_movement;

verus! {

/// The key snapshot a frame runs on: whether each relevant key is currently
/// held.
#[derive(Clone, Copy, Debug, PartialEq, Eq, Structural)]
pub struct Input {
    /// The start key (space).
    pub space: bool,
    /// Left paddle up (W).
    pub w: bool,
    /// Left paddle down (S).
    pub s: bool,
    /// Right paddle up (arrow up).
    pub up: bool,
    /// Right paddle down (arrow down).
    pub down: bool,
}

impl Input {
    /// A snapshot with no key held.
    pub fn none() -> (r: Input)
        ensures
            r == (Input { space: false, w: false, s: false, up: false, down: false }),
    {
        Input { space: false, w: false, s: false, up: false, down: false }
    }
}

/// The start transition: while the start screen is up and the start key is
/// held, both scores reset to zero and a round begins; in every other case
/// nothing changes.
pub open spec fn start_step(m: SimM, space: bool) -> SimM {
    if m.state == GameState::Start && space {
        SimM { state: GameState::Playing, left_score: 0, right_score: 0, ..m }
    } else {
        m
    }
}

/// The win check: once either score has reached the win threshold, both
/// paddles re-center and the start screen returns; otherwise nothing changes.
pub open spec fn win_step(m: SimM) -> SimM {
    if m.left_score >= WIN_SCORE || m.right_score >= WIN_SCORE {
        SimM { state: GameState::Start, left_y: 0, right_y: 0, ..m }
    } else {
        m
    }
}

/// Runs the start transition for one frame, from whether the start key is
/// held.
pub fn start_manager(sim: &mut Sim, space: bool)
    ensures
        final(sim).m() == start_step(old(sim).m(), space),
{
    if sim.state == GameState::Start && space {
        sim.scores.left = 0;
        sim.scores.right = 0;
        sim.state = GameState::Playing;
    }
}

/// Runs the win check for one frame.
pub fn end_manager(sim: &mut Sim)
    ensures
        final(sim).m() == win_step(old(sim).m()),
{
    if sim.scores.left >= WIN_SCORE || sim.scores.right >= WIN_SCORE {
        sim.left.y = 0;
        sim.right.y = 0;
        sim.state = GameState::Start;
    }
}

/// One whole frame at the canonical speeds, in the fixed system order: start
/// transition, left paddle, right paddle, ball physics, collision, win check.
pub open spec fn sim_step(m: SimM, inp: Input, dt_ms: u32, sdx: int, sdy: int) -> SimM {
    let m1 = start_step(m, inp.space);
    let m2 = paddle_apply(m1, Side::Left, inp.w, inp.s, PADDLE_SPEED, dt_ms);
    let m3 = paddle_apply(m2, Side::Right, inp.up, inp.down, PADDLE_SPEED, dt_ms);
    let m4 = ball_apply(m3, BALL_SPEED, dt_ms, sdx, sdy);
    let m5 = collision_apply(m4);
    win_step(m5)
}

/// Advances the simulation by one frame: the start transition, both paddles,
/// ball physics with the injected serve direction, collision, and the win
/// check, in that order, at the canonical speeds. Keeps the snapshot
/// well-formed.
pub fn frame(sim: &mut Sim, input: Input, dt_ms: u32, serve: (AxisDir, AxisDir))
    requires
        wf(old(sim).m()),
    ensures
        final(sim).m() == sim_step(old(sim).m(), input, dt_ms, serve.0.sign(), serve.1.sign()),
        wf(final(sim).m()),
{
    start_manager(sim, input.space);
    paddle_movement(sim, Side::Left, input.w, input.s, PADDLE_SPEED, dt_ms);
    paddle_movement(sim, Side::Right, input.up, input.down, PADDLE_SPEED, dt_ms);
    ball_physics(sim, BALL_SPEED, dt_ms, serve);
    collision(sim);
    end_manager(sim);
}

} // verus!
