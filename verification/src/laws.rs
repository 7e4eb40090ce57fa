//! General properties of the simulation, each stated and proved once over
//! the per-frame step functions.

use vstd::prelude::*;
use crate::ball::ball_step;
use crate::ball::move_step;
use crate::ball::wall_step;
use crate::collision::collide_one;
use crate::collision::overlaps;
use crate::collision::reflect;
use crate::flow::Input;
use crate::flow::sim_step;
use crate::paddle::paddle_step;
use crate::sim::BallM;
use crate::sim::GameState;
use crate::sim::SimM;
use crate::sim::BALL_SPEED;
use crate::sim::GOAL_X;
use crate::sim::PADDLE_CLAMP;
use crate::sim::WALL_Y;
use crate::sim::WIN_SCORE;
use crate::sim::displacement;
use crate::sim::lemma_displacement_bounds;
use crate::sim::wf;

verus! {

/// Both direction components of a ball model are signs, as every ball a
/// snapshot can hold has.
pub open spec fn dirs_ok(b: BallM) -> bool {
    &&& b.dx == -1 || b.dx == 1
    &&& b.dy == -1 || b.dy == 1
}

/// The ball sits inside the playing field: between the walls and between the
/// goal boundaries.
pub open spec fn in_field(b: BallM) -> bool {
    &&& -WALL_Y <= b.y <= WALL_Y
    &&& -GOAL_X <= b.x <= GOAL_X
}

/// After any paddle frame the paddle's vertical position lies in the clamped
/// band, whatever it was before.
pub proof fn lemma_paddle_in_band(y: int, up: bool, down: bool, speed: u32, dt_ms: u32)
    ensures
        -PADDLE_CLAMP <= paddle_step(y, up, down, speed, dt_ms) <= PADDLE_CLAMP,
{
}

/// After wall contact the ball's vertical position lies between the walls,
/// whatever it was before; integration may then carry it at most one
/// displacement past them before the next frame's wall contact.
pub proof fn lemma_wall_contact_bounds(b: BallM)
    ensures
        -WALL_Y <= wall_step(b).y <= WALL_Y,
{
}

/// After a full ball frame the vertical position is at most one displacement
/// past the walls.
pub proof fn lemma_ball_frame_vertical_bound(
    b: BallM,
    left_score: int,
    right_score: int,
    speed: u32,
    dt_ms: u32,
    sdx: int,
    sdy: int,
)
    requires
        dirs_ok(b),
        sdy == -1 || sdy == 1,
    ensures
        -WALL_Y - displacement(speed, dt_ms) <= ball_step(
            b,
            left_score,
            right_score,
            speed,
            dt_ms,
            sdx,
            sdy,
        ).0.y <= WALL_Y + displacement(speed, dt_ms),
{
    lemma_displacement_bounds(speed, dt_ms);
}

/// A wall bounce negates only the axis-matching direction component: the
/// horizontal component and the horizontal position are never touched, the
/// vertical component is negated exactly when the ball is past a wall.
pub proof fn lemma_wall_bounce_vertical_only(b: BallM)
    ensures
        wall_step(b).dx == b.dx,
        wall_step(b).x == b.x,
        (b.y > WALL_Y || b.y < -WALL_Y) ==> wall_step(b).dy == -b.dy,
        (-WALL_Y <= b.y <= WALL_Y) ==> wall_step(b) == b,
{
}

/// A paddle reflection negates both direction components at once and leaves
/// the position alone; without overlap nothing changes.
pub proof fn lemma_reflection_negates_both(b: BallM, px: int, py: int)
    ensures
        overlaps(b, px, py) ==> collide_one(b, px, py) == reflect(b),
        !overlaps(b, px, py) ==> collide_one(b, px, py) == b,
        collide_one(b, px, py).x == b.x,
        collide_one(b, px, py).y == b.y,
        reflect(b).dx == -b.dx,
        reflect(b).dy == -b.dy,
{
}

/// The flow machine has exactly two transitions: the start screen leaves for
/// a round only on the start key, and a round ends only with a score at the
/// win threshold.
pub proof fn lemma_only_two_transitions(m: SimM, inp: Input, dt_ms: u32, sdx: int, sdy: int)
    ensures
        ({
            let r = sim_step(m, inp, dt_ms, sdx, sdy);
            &&& (m.state == GameState::Start && r.state == GameState::Playing) ==> inp.space
            &&& (m.state == GameState::Playing && r.state == GameState::Start) ==> r.left_score
                >= WIN_SCORE || r.right_score >= WIN_SCORE
            &&& m.state == GameState::Start && !inp.space ==> r.state == GameState::Start
        }),
{
}

/// Within a round the score counters never go down: any frame that is not a
/// start transition can only keep or raise them.
pub proof fn lemma_scores_monotone_in_round(m: SimM, inp: Input, dt_ms: u32, sdx: int, sdy: int)
    requires
        !(m.state == GameState::Start && inp.space),
    ensures
        sim_step(m, inp, dt_ms, sdx, sdy).left_score >= m.left_score,
        sim_step(m, inp, dt_ms, sdx, sdy).right_score >= m.right_score,
{
}

/// A frame with no key held and no elapsed time changes no position: not the
/// paddles', not the ball's.
pub proof fn lemma_no_input_no_motion(m: SimM, inp: Input, sdx: int, sdy: int)
    requires
        wf(m),
        !inp.space && !inp.w && !inp.s && !inp.up && !inp.down,
        m.left_score < WIN_SCORE,
        m.right_score < WIN_SCORE,
        m.state == GameState::Playing ==> in_field(m.ball),
    ensures
        sim_step(m, inp, 0, sdx, sdy).left_y == m.left_y,
        sim_step(m, inp, 0, sdx, sdy).right_y == m.right_y,
        sim_step(m, inp, 0, sdx, sdy).ball.x == m.ball.x,
        sim_step(m, inp, 0, sdx, sdy).ball.y == m.ball.y,
{
    let d = displacement(BALL_SPEED, 0);
    assert(d == 0);
    assert(m.ball.dx * d == 0) by (nonlinear_arith)
        requires
            d == 0,
    ;
    assert(m.ball.dy * d == 0) by (nonlinear_arith)
        requires
            d == 0,
    ;
    if m.state == GameState::Playing {
        assert(move_step(wall_step(m.ball), 0).y == m.ball.y);
    }
}

} // verus!
