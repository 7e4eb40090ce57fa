//! A verified core for a minimal two-player Pong simulation: paddle movement
//! with screen clamping, ball motion with wall bounce and paddle reflection,
//! scoring, and a Start/Playing game-flow machine.
//!
//! Positions are whole world units, elapsed time is in milliseconds, and every
//! per-frame transform is specified against a mathematical model of the
//! simulation snapshot.

pub mod ball;
pub mod codec;
pub mod collision;
pub mod flow;
pub mod laws;
pub mod paddle;
pub mod rng;
pub mod sim;

use vstd::prelude::*;

verus! {

} // verus!
