//! Paddle control: one parameterized routine serves both sides.

use vstd::prelude::*;
use crate::sim::GameState;
use crate::sim::Side;
use crate::sim::Sim;
use crate::sim::SimM;
use crate::sim::PADDLE_CLAMP;
use crate::sim::PADDLE_X;
use crate::sim::clamp;
use crate::sim::displacement;
use crate::sim::displacement_units;
use crate::sim::paddles_ok;

verus! {

/// The movement direction a key snapshot asks for: the up key wins over the
/// down key, and no key means no movement.
pub open spec fn paddle_dir(up: bool, down: bool) -> int {
    if up {
        1
    } else if down {
        -1
    } else {
        0
    }
}

/// One paddle frame: integrate the requested movement, then clamp to the
/// screen band.
pub open spec fn paddle_step(y: int, up: bool, down: bool, speed: u32, dt_ms: u32) -> int {
    clamp(
        y + paddle_dir(up, down) * displacement(speed, dt_ms),
        -PADDLE_CLAMP as int,
        PADDLE_CLAMP as int,
    )
}

/// The fixed horizontal position of a paddle.
pub open spec fn side_x(side: Side) -> int {
    match side {
        Side::Left => -PADDLE_X as int,
        Side::Right => PADDLE_X as int,
    }
}

/// `side_x` in machine arithmetic.
pub fn side_x_units(side: Side) -> (r: i64)
    ensures
        r as int == side_x(side),
{
    match side {
        Side::Left => -PADDLE_X,
        Side::Right => PADDLE_X,
    }
}

/// The effect of one paddle frame on the whole snapshot: while a round is
/// being played, the chosen paddle's vertical position takes one
/// `paddle_step`; otherwise, and for every other field, nothing changes.
pub open spec fn paddle_apply(
    m: SimM,
    side: Side,
    up: bool,
    down: bool,
    speed: u32,
    dt_ms: u32,
) -> SimM {
    if m.state == GameState::Playing {
        match side {
            Side::Left => SimM { left_y: paddle_step(m.left_y, up, down, speed, dt_ms), ..m },
            Side::Right => SimM { right_y: paddle_step(m.right_y, up, down, speed, dt_ms), ..m },
        }
    } else {
        m
    }
}

/// Moves one paddle for one frame from its key snapshot: up or down by
/// `speed` units per second over `dt_ms` milliseconds, clamped to the screen
/// band, and only while a round is being played.
pub fn paddle_movement(sim: &mut Sim, side: Side, up: bool, down: bool, speed: u32, dt_ms: u32)
    requires
        paddles_ok(old(sim).m()),
    ensures
        final(sim).m() == paddle_apply(old(sim).m(), side, up, down, speed, dt_ms),
        paddles_ok(final(sim).m()),
        -PADDLE_CLAMP <= final(sim).left.y <= PADDLE_CLAMP,
        -PADDLE_CLAMP <= final(sim).right.y <= PADDLE_CLAMP,
{
    if sim.state == GameState::Playing {
        let d: i64 = displacement_units(speed, dt_ms);
        let dir: i64 = if up {
            1
        } else if down {
            -1
        } else {
            0
        };
        let y: i64 = match side {
            Side::Left => sim.left.y,
            Side::Right => sim.right.y,
        };
        let mut moved: i64 = y + dir * d;
        if moved > PADDLE_CLAMP {
            moved = PADDLE_CLAMP;
        }
        if moved < -PADDLE_CLAMP {
            moved = -PADDLE_CLAMP;
        }
        match side {
            Side::Left => {
                sim.left.y = moved;
            },
            Side::Right => {
                sim.right.y = moved;
            },
        }
    }
}

} // verus!
