//! Core data types of the simulation and their mathematical model.

use vstd::prelude::*;

verus! {

/// Paddle speed in world units per second.
pub const PADDLE_SPEED: u32 = 375;

/// Ball speed in world units per second.
pub const BALL_SPEED: u32 = 300;

/// Paddles are clamped to vertical positions in `[-PADDLE_CLAMP, PADDLE_CLAMP]`.
pub const PADDLE_CLAMP: i64 = 280;

/// The ball bounces off horizontal walls at vertical positions `-WALL_Y` and `WALL_Y`.
pub const WALL_Y: i64 = 350;

/// Crossing `GOAL_X` (or `-GOAL_X`) scores a point and re-serves the ball.
pub const GOAL_X: i64 = 625;

/// Fixed horizontal distance of each paddle from the center line.
pub const PADDLE_X: i64 = 600;

/// Horizontal tolerance of the paddle collision box around the paddle center.
pub const COLLIDE_HALF_W: i64 = 15;

/// Vertical tolerance of the paddle collision box around the paddle center.
pub const COLLIDE_HALF_H: i64 = 75;

/// A round ends, returning to the start screen, once a score reaches this value.
pub const WIN_SCORE: u32 = 10;

/// The two states of the game flow machine.
#[derive(Clone, Copy, Debug, PartialEq, Eq, Structural)]
pub enum GameState {
    /// Start screen: the title is shown and the simulation waits for the start key.
    Start,
    /// A round is being played: paddles and ball move every frame.
    Playing,
}

/// Which paddle a routine acts on.
#[derive(Clone, Copy, Debug, PartialEq, Eq, Structural)]
pub enum Side {
    Left,
    Right,
}

/// One component of the ball's direction: always one of the signs -1 and +1.
#[derive(Clone, Copy, Debug, PartialEq, Eq, Structural)]
pub enum AxisDir {
    Neg,
    Pos,
}

impl AxisDir {
    /// The sign this component stands for: -1 or +1.
    pub open spec fn sign(self) -> int {
        match self {
            AxisDir::Neg => -1,
            AxisDir::Pos => 1,
        }
    }

    /// The opposite direction component.
    pub fn flip(self) -> (r: AxisDir)
        ensures
            r.sign() == -self.sign(),
    {
        match self {
            AxisDir::Neg => AxisDir::Pos,
            AxisDir::Pos => AxisDir::Neg,
        }
    }

    /// The sign as a machine integer.
    pub fn sign_i64(self) -> (r: i64)
        ensures
            r as int == self.sign(),
    {
        match self {
            AxisDir::Neg => -1i64,
            AxisDir::Pos => 1i64,
        }
    }
}

/// A paddle: its horizontal position is fixed by its side, so only the
/// vertical position is carried.
#[derive(Clone, Copy, Debug, PartialEq, Eq, Structural)]
pub struct Paddle {
    pub y: i64,
}

/// The ball: a position and a diagonal direction, one sign per axis.
#[derive(Clone, Copy, Debug, PartialEq, Eq, Structural)]
pub struct Ball {
    pub x: i64,
    pub y: i64,
    pub dx: AxisDir,
    pub dy: AxisDir,
}

/// The two score counters.
#[derive(Clone, Copy, Debug, PartialEq, Eq, Structural)]
pub struct Scores {
    /// Score of the left player; it grows when the ball leaves on the right.
    pub left: u32,
    /// Score of the right player; it grows when the ball leaves on the left.
    pub right: u32,
}

/// One simulation snapshot: everything the per-frame systems read and write.
#[derive(Clone, Copy, Debug, PartialEq, Eq, Structural)]
pub struct Sim {
    pub state: GameState,
    pub left: Paddle,
    pub right: Paddle,
    pub ball: Ball,
    pub scores: Scores,
}

/// Mathematical model of the ball: unbounded integers, directions as signs.
pub ghost struct BallM {
    pub x: int,
    pub y: int,
    pub dx: int,
    pub dy: int,
}

/// Mathematical model of one snapshot.
pub ghost struct SimM {
    pub state: GameState,
    pub left_y: int,
    pub right_y: int,
    pub ball: BallM,
    pub left_score: int,
    pub right_score: int,
}

impl Sim {
    /// The model of this snapshot.
    pub open spec fn m(self) -> SimM {
        SimM {
            state: self.state,
            left_y: self.left.y as int,
            right_y: self.right.y as int,
            ball: BallM {
                x: self.ball.x as int,
                y: self.ball.y as int,
                dx: self.ball.dx.sign(),
                dy: self.ball.dy.sign(),
            },
            left_score: self.scores.left as int,
            right_score: self.scores.right as int,
        }
    }
}

/// A coordinate constrained to the closed range `[lo, hi]`.
pub open spec fn clamp(v: int, lo: int, hi: int) -> int {
    if v < lo {
        lo
    } else if v > hi {
        hi
    } else {
        v
    }
}

/// Distance covered in `dt_ms` milliseconds at `speed` world units per
/// second, rounded down to a whole unit.
pub open spec fn displacement(speed: u32, dt_ms: u32) -> int {
    (speed * dt_ms) / 1000
}

/// An upper bound on any displacement, used to keep position arithmetic in
/// machine range.
pub proof fn lemma_displacement_bounds(speed: u32, dt_ms: u32)
    ensures
        0 <= displacement(speed, dt_ms) < 0x4000_0000_0000_0000,
{
    assert(speed * dt_ms <= 0xFFFF_FFFF * 0xFFFF_FFFF) by (nonlinear_arith)
        requires
            speed <= 0xFFFF_FFFF,
            dt_ms <= 0xFFFF_FFFF,
    ;
    assert(0 <= (speed * dt_ms) / 1000 <= speed * dt_ms) by (nonlinear_arith)
        requires
            0 <= speed * dt_ms,
    ;
}

/// Computes `displacement(speed, dt_ms)` in machine arithmetic.
pub fn displacement_units(speed: u32, dt_ms: u32) -> (d: i64)
    ensures
        d as int == displacement(speed, dt_ms),
        0 <= d < 0x4000_0000_0000_0000,
{
    proof {
        lemma_displacement_bounds(speed, dt_ms);
        assert((speed as u64) * (dt_ms as u64) <= 0xFFFF_FFFF * 0xFFFF_FFFF) by (nonlinear_arith)
            requires
                speed as u64 <= 0xFFFF_FFFF,
                dt_ms as u64 <= 0xFFFF_FFFF,
        ;
    }
    let product: u64 = (speed as u64) * (dt_ms as u64);
    let d: u64 = product / 1000;
    d as i64
}

/// The snapshot every run begins with: start screen, centered paddles and
/// ball, zero scores, and the given serve direction.
pub open spec fn init_model(dx: int, dy: int) -> SimM {
    SimM {
        state: GameState::Start,
        left_y: 0,
        right_y: 0,
        ball: BallM { x: 0, y: 0, dx: dx, dy: dy },
        left_score: 0,
        right_score: 0,
    }
}

impl Sim {
    /// Creates the initial snapshot with the given first serve direction.
    pub fn new(dx: AxisDir, dy: AxisDir) -> (s: Sim)
        ensures
            s.m() == init_model(dx.sign(), dy.sign()),
            wf(s.m()),
    {
        Sim {
            state: GameState::Start,
            left: Paddle { y: 0 },
            right: Paddle { y: 0 },
            ball: Ball { x: 0, y: 0, dx: dx, dy: dy },
            scores: Scores { left: 0, right: 0 },
        }
    }

    /// The title text is shown exactly while the start screen is up.
    pub fn title_visible(&self) -> (r: bool)
        ensures
            r == (self.state == GameState::Start),
    {
        self.state == GameState::Start
    }

    /// The two score values the scoreboard displays, left then right.
    pub fn scoreboard(&self) -> (r: (u32, u32))
        ensures
            r.0 == self.scores.left,
            r.1 == self.scores.right,
    {
        (self.scores.left, self.scores.right)
    }
}

/// The decimal digit string of a score value, as ASCII bytes, most
/// significant digit first and without leading zeros (zero itself is "0").
pub open spec fn decimal_digits(n: nat) -> Seq<u8>
    decreases n,
{
    if n < 10 {
        seq![(48 + n) as u8]
    } else {
        decimal_digits(n / 10).push((48 + n % 10) as u8)
    }
}

/// Renders a score value as the decimal digit string the scoreboard shows.
pub fn score_digits(n: u32) -> (v: Vec<u8>)
    ensures
        v@ == decimal_digits(n as nat),
    decreases n,
{
    if n < 10 {
        let mut v: Vec<u8> = Vec::new();
        v.push(48 + n as u8);
        v
    } else {
        let mut v = score_digits(n / 10);
        v.push(48 + (n % 10) as u8);
        v
    }
}

/// Both paddles sit inside the clamped band. Established at creation and
/// preserved by every per-frame routine.
pub open spec fn paddles_ok(m: SimM) -> bool {
    &&& -PADDLE_CLAMP <= m.left_y <= PADDLE_CLAMP
    &&& -PADDLE_CLAMP <= m.right_y <= PADDLE_CLAMP
}

/// Well-formedness of a snapshot: paddles are clamped, and while a round is
/// being played neither score has passed the win threshold (the win check
/// ends the round in the same frame a score reaches it).
pub open spec fn wf(m: SimM) -> bool {
    &&& paddles_ok(m)
    &&& m.state == GameState::Playing ==> m.left_score <= WIN_SCORE && m.right_score
        <= WIN_SCORE
}

} // verus!
