//! The randomized serve: each direction component is drawn independently
//! from the two signs. The draw itself is the one outside call of the
//! library; everything that consumes a drawn direction takes it as an
//! argument and is verified for every value of it.

use vstd::prelude::*;
use crate::ball::ball_apply;
use crate::ball::ball_physics;
use crate::sim::AxisDir;
use crate::sim::GameState;
use crate::sim::Sim;
use crate::sim::init_model;
use crate::sim::wf;

verus! {

/// Relies on rand::random::<bool>: a fresh, independent draw of a bool, each
/// value with probability one half. Nothing is promised of the value; two
/// calls may differ.
#[verifier::external_body]
fn coin_flip() -> bool {
    rand::random::<bool>()
}

/// Draws one direction component at random. Every outcome is one of the two
/// signs; nothing else is promised.
pub fn random_axis_dir() -> AxisDir {
    if coin_flip() {
        AxisDir::Pos
    } else {
        AxisDir::Neg
    }
}

/// Draws a full serve direction: both components drawn independently.
pub fn random_serve() -> (AxisDir, AxisDir) {
    let dx = random_axis_dir();
    let dy = random_axis_dir();
    (dx, dy)
}

/// Moves the ball for one frame with a freshly drawn serve direction, as the
/// running game does. Whatever the draw, the frame is one `ball_step` with
/// some pair of signs.
pub fn ball_physics_random(sim: &mut Sim, speed: u32, dt_ms: u32)
    requires
        old(sim).state == GameState::Playing ==> old(sim).scores.left < u32::MAX && old(
            sim,
        ).scores.right < u32::MAX,
    ensures
        exists|sdx: int, sdy: int|
            (sdx == -1 || sdx == 1) && (sdy == -1 || sdy == 1) && final(sim).m() == ball_apply(
                old(sim).m(),
                speed,
                dt_ms,
                sdx,
                sdy,
            ),
{
    let serve = random_serve();
    ball_physics(sim, speed, dt_ms, serve);
    proof {
        assert(serve.0.sign() == -1 || serve.0.sign() == 1);
        assert(serve.1.sign() == -1 || serve.1.sign() == 1);
    }
}

/// Creates the initial snapshot with a randomly drawn first serve direction,
/// as a fresh game sets itself up.
pub fn new_random_sim() -> (s: Sim)
    ensures
        s.m() == init_model(s.ball.dx.sign(), s.ball.dy.sign()),
        wf(s.m()),
{
    let (dx, dy) = random_serve();
    Sim::new(dx, dy)
}

} // verus!
