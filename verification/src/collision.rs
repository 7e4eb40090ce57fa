//! Paddle-ball collision: an axis-aligned box test around each paddle, and a
//! full reflection (both direction components negated) on overlap.

use vstd::prelude::*;
use crate::sim::BallM;
use crate::sim::Side;
use crate::sim::Sim;
use crate::sim::SimM;
use crate::sim::COLLIDE_HALF_H;
use crate::sim::COLLIDE_HALF_W;
use crate::sim::paddles_ok;
use crate::paddle::side_x;
use crate::paddle::side_x_units;

verus! {

/// The box test: the ball overlaps a paddle centered at `(px, py)` iff its
/// position falls inside the paddle's collision box.
pub open spec fn overlaps(b: BallM, px: int, py: int) -> bool {
    &&& px - COLLIDE_HALF_W <= b.x <= px + COLLIDE_HALF_W
    &&& py - COLLIDE_HALF_H <= b.y <= py + COLLIDE_HALF_H
}

/// Reflection: both direction components negated, position unchanged.
pub open spec fn reflect(b: BallM) -> BallM {
    BallM { x: b.x, y: b.y, dx: -b.dx, dy: -b.dy }
}

/// One collision frame for one paddle: reflect the ball iff it overlaps the
/// paddle's box.
pub open spec fn collide_one(b: BallM, px: int, py: int) -> BallM {
    if overlaps(b, px, py) {
        reflect(b)
    } else {
        b
    }
}

/// One collision frame: the ball is tested against the left paddle's box and
/// then against the right paddle's box. A ball inside both boxes would be
/// reflected twice; positions are never changed here.
pub open spec fn collision_apply(m: SimM) -> SimM {
    SimM {
        ball: collide_one(
            collide_one(m.ball, side_x(Side::Left), m.left_y),
            side_x(Side::Right),
            m.right_y,
        ),
        ..m
    }
}

/// Tests the ball against both paddles' collision boxes and, on overlap,
/// reflects it fully: both direction components are negated, the position is
/// left alone. Runs every frame, in every state.
pub fn collision(sim: &mut Sim)
    requires
        paddles_ok(old(sim).m()),
    ensures
        final(sim).m() == collision_apply(old(sim).m()),
{
    let bx: i64 = sim.ball.x;
    let by: i64 = sim.ball.y;
    let lx: i64 = side_x_units(Side::Left);
    if bx >= lx - COLLIDE_HALF_W && bx <= lx + COLLIDE_HALF_W && by >= sim.left.y - COLLIDE_HALF_H
        && by <= sim.left.y + COLLIDE_HALF_H {
        sim.ball.dx = sim.ball.dx.flip();
        sim.ball.dy = sim.ball.dy.flip();
    }
    let rx: i64 = side_x_units(Side::Right);
    if bx >= rx - COLLIDE_HALF_W && bx <= rx + COLLIDE_HALF_W && by >= sim.right.y - COLLIDE_HALF_H
        && by <= sim.right.y + COLLIDE_HALF_H {
        sim.ball.dx = sim.ball.dx.flip();
        sim.ball.dy = sim.ball.dy.flip();
    }
}

} // verus!
