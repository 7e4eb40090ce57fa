//! Ball physics: wall bounce, out-of-bounds scoring with re-serve, and
//! integration, in that fixed per-frame order.

use vstd::prelude::*;
use crate::sim::AxisDir;
use crate::sim::BallM;
use crate::sim::GameState;
use crate::sim::Sim;
use crate::sim::SimM;
use crate::sim::GOAL_X;
use crate::sim::WALL_Y;
use crate::sim::displacement;
use crate::sim::displacement_units;

verus! {

/// Wall contact: a ball past either horizontal wall is pulled back onto it
/// and its vertical direction component is negated; the horizontal component
/// is never touched.
pub open spec fn wall_step(b: BallM) -> BallM {
    let b1 = if b.y > WALL_Y as int {
        BallM { x: b.x, y: WALL_Y as int, dx: b.dx, dy: -b.dy }
    } else {
        b
    };
    if b1.y < -WALL_Y as int {
        BallM { x: b1.x, y: -WALL_Y as int, dx: b1.dx, dy: -b1.dy }
    } else {
        b1
    }
}

/// Goal check: a ball past the right boundary scores for the left player, a
/// ball past the left boundary for the right player; either way the ball is
/// re-centered and serves again in the injected direction.
pub open spec fn goal_step(b: BallM, left_score: int, right_score: int, sdx: int, sdy: int) -> (
    BallM,
    int,
    int,
) {
    if b.x > GOAL_X as int {
        (BallM { x: 0, y: 0, dx: sdx, dy: sdy }, left_score + 1, right_score)
    } else if b.x < -GOAL_X as int {
        (BallM { x: 0, y: 0, dx: sdx, dy: sdy }, left_score, right_score + 1)
    } else {
        (b, left_score, right_score)
    }
}

/// Integration: the ball advances by one displacement along each axis, in the
/// direction the sign components give.
pub open spec fn move_step(b: BallM, d: int) -> BallM {
    BallM { x: b.x + b.dx * d, y: b.y + b.dy * d, dx: b.dx, dy: b.dy }
}

/// One full ball frame: wall contact, then the goal check, then integration
/// with the possibly-just-reset position and direction.
pub open spec fn ball_step(
    b: BallM,
    left_score: int,
    right_score: int,
    speed: u32,
    dt_ms: u32,
    sdx: int,
    sdy: int,
) -> (BallM, int, int) {
    let bw = wall_step(b);
    let (bg, ls, rs) = goal_step(bw, left_score, right_score, sdx, sdy);
    (move_step(bg, displacement(speed, dt_ms)), ls, rs)
}

/// The effect of one ball frame on the whole snapshot: while a round is being
/// played the ball and the scores take one `ball_step`; otherwise, and for
/// every other field, nothing changes.
pub open spec fn ball_apply(m: SimM, speed: u32, dt_ms: u32, sdx: int, sdy: int) -> SimM {
    if m.state == GameState::Playing {
        let (b, ls, rs) = ball_step(m.ball, m.left_score, m.right_score, speed, dt_ms, sdx, sdy);
        SimM { ball: b, left_score: ls, right_score: rs, ..m }
    } else {
        m
    }
}

/// Moves the ball for one frame: wall bounce, goal scoring with re-serve in
/// the direction `serve`, then integration at `speed` units per second over
/// `dt_ms` milliseconds. Runs only while a round is being played.
pub fn ball_physics(sim: &mut Sim, speed: u32, dt_ms: u32, serve: (AxisDir, AxisDir))
    requires
        old(sim).state == GameState::Playing ==> old(sim).scores.left < u32::MAX && old(
            sim,
        ).scores.right < u32::MAX,
    ensures
        final(sim).m() == ball_apply(old(sim).m(), speed, dt_ms, serve.0.sign(), serve.1.sign()),
{
    if sim.state == GameState::Playing {
        if sim.ball.y > WALL_Y {
            sim.ball.y = WALL_Y;
            sim.ball.dy = sim.ball.dy.flip();
        }
        if sim.ball.y < -WALL_Y {
            sim.ball.y = -WALL_Y;
            sim.ball.dy = sim.ball.dy.flip();
        }
        if sim.ball.x > GOAL_X {
            sim.scores.left = sim.scores.left + 1;
            sim.ball.x = 0;
            sim.ball.y = 0;
            sim.ball.dx = serve.0;
            sim.ball.dy = serve.1;
        } else if sim.ball.x < -GOAL_X {
            sim.scores.right = sim.scores.right + 1;
            sim.ball.x = 0;
            sim.ball.y = 0;
            sim.ball.dx = serve.0;
            sim.ball.dy = serve.1;
        }
        let d: i64 = displacement_units(speed, dt_ms);
        let sx: i64 = sim.ball.dx.sign_i64();
        let sy: i64 = sim.ball.dy.sign_i64();
        sim.ball.x = sim.ball.x + sx * d;
        sim.ball.y = sim.ball.y + sy * d;
    }
}

} // verus!
