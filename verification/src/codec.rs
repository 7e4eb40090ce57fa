//! A byte codec for simulation snapshots: a fixed 43-byte layout, with the
//! round trip proved, so a snapshot can be stored and replayed.

use vstd::prelude::*;
use vstd::bytes::lemma_auto_spec_u32_to_from_le_bytes;
use vstd::bytes::lemma_auto_spec_u64_to_from_le_bytes;
use vstd::bytes::spec_u32_from_le_bytes;
use vstd::bytes::spec_u32_to_le_bytes;
use vstd::bytes::spec_u64_from_le_bytes;
use vstd::bytes::spec_u64_to_le_bytes;
use vstd::bytes::u32_from_le_bytes;
use vstd::bytes::u32_to_le_bytes;
use vstd::bytes::u64_from_le_bytes;
use vstd::bytes::u64_to_le_bytes;
use vstd::slice::slice_index_get;
use vstd::slice::slice_subrange;
use crate::sim::AxisDir;
use crate::sim::Ball;
use crate::sim::GameState;
use crate::sim::Paddle;
use crate::sim::Scores;
use crate::sim::Sim;

verus! {

/// The encoded length of a snapshot: three tag bytes, four 8-byte positions,
/// two 4-byte scores.
pub const SNAPSHOT_LEN: usize = 43;

/// The byte standing for a game state.
pub open spec fn state_byte(s: GameState) -> u8 {
    match s {
        GameState::Start => 0,
        GameState::Playing => 1,
    }
}

/// The byte standing for a direction component.
pub open spec fn dir_byte(d: AxisDir) -> u8 {
    match d {
        AxisDir::Neg => 0,
        AxisDir::Pos => 1,
    }
}

/// The encoding of a snapshot: state and direction tags, then the four
/// positions as 64-bit little-endian words, then the two scores as 32-bit
/// little-endian words.
pub open spec fn encode_spec(s: Sim) -> Seq<u8> {
    seq![state_byte(s.state), dir_byte(s.ball.dx), dir_byte(s.ball.dy)] + spec_u64_to_le_bytes(
        s.left.y as u64,
    ) + spec_u64_to_le_bytes(s.right.y as u64) + spec_u64_to_le_bytes(s.ball.x as u64)
        + spec_u64_to_le_bytes(s.ball.y as u64) + spec_u32_to_le_bytes(s.scores.left)
        + spec_u32_to_le_bytes(s.scores.right)
}

/// The decoding of a byte string: the snapshot it encodes, or nothing when
/// the length or one of the tag bytes is invalid.
pub open spec fn decode_spec(b: Seq<u8>) -> Option<Sim> {
    if b.len() != SNAPSHOT_LEN {
        Option::None
    } else if (b[0] == 0 || b[0] == 1) && (b[1] == 0 || b[1] == 1) && (b[2] == 0 || b[2] == 1) {
        Option::Some(
            Sim {
                state: if b[0] == 1 {
                    GameState::Playing
                } else {
                    GameState::Start
                },
                left: Paddle { y: spec_u64_from_le_bytes(b.subrange(3, 11)) as i64 },
                right: Paddle { y: spec_u64_from_le_bytes(b.subrange(11, 19)) as i64 },
                ball: Ball {
                    x: spec_u64_from_le_bytes(b.subrange(19, 27)) as i64,
                    y: spec_u64_from_le_bytes(b.subrange(27, 35)) as i64,
                    dx: if b[1] == 1 {
                        AxisDir::Pos
                    } else {
                        AxisDir::Neg
                    },
                    dy: if b[2] == 1 {
                        AxisDir::Pos
                    } else {
                        AxisDir::Neg
                    },
                },
                scores: Scores {
                    left: spec_u32_from_le_bytes(b.subrange(35, 39)),
                    right: spec_u32_from_le_bytes(b.subrange(39, 43)),
                },
            },
        )
    } else {
        Option::None
    }
}

/// A 64-bit signed position survives the pass through its unsigned encoding
/// word.
proof fn lemma_i64_word_round_trip(x: i64)
    by (bit_vector)
    ensures
        ((x as u64) as i64) == x,
{
}

/// Decoding inverts encoding: every snapshot comes back from its own bytes.
pub proof fn lemma_snapshot_round_trip(s: Sim)
    ensures
        decode_spec(encode_spec(s)) == Option::Some(s),
{
    lemma_auto_spec_u64_to_from_le_bytes();
    lemma_auto_spec_u32_to_from_le_bytes();
    let e = encode_spec(s);
    assert(e.len() == SNAPSHOT_LEN);
    assert(e[0] == state_byte(s.state));
    assert(e[1] == dir_byte(s.ball.dx));
    assert(e[2] == dir_byte(s.ball.dy));
    assert(e.subrange(3, 11) =~= spec_u64_to_le_bytes(s.left.y as u64));
    assert(e.subrange(11, 19) =~= spec_u64_to_le_bytes(s.right.y as u64));
    assert(e.subrange(19, 27) =~= spec_u64_to_le_bytes(s.ball.x as u64));
    assert(e.subrange(27, 35) =~= spec_u64_to_le_bytes(s.ball.y as u64));
    assert(e.subrange(35, 39) =~= spec_u32_to_le_bytes(s.scores.left));
    assert(e.subrange(39, 43) =~= spec_u32_to_le_bytes(s.scores.right));
    lemma_i64_word_round_trip(s.left.y);
    lemma_i64_word_round_trip(s.right.y);
    lemma_i64_word_round_trip(s.ball.x);
    lemma_i64_word_round_trip(s.ball.y);
}

/// A decoded snapshot replays exactly: whatever frame inputs follow, the
/// snapshot that comes back from its bytes steps to the same next snapshot
/// as the one that was stored.
pub proof fn lemma_round_trip_replay(
    s: Sim,
    inp: crate::flow::Input,
    dt_ms: u32,
    sdx: int,
    sdy: int,
)
    ensures
        forall|t: Sim|
            decode_spec(encode_spec(s)) == Option::Some(t) ==> crate::flow::sim_step(
                t.m(),
                inp,
                dt_ms,
                sdx,
                sdy,
            ) == crate::flow::sim_step(s.m(), inp, dt_ms, sdx, sdy),
{
    lemma_snapshot_round_trip(s);
}

/// Serializes a snapshot into its 43-byte form.
pub fn encode(s: &Sim) -> (out: Vec<u8>)
    ensures
        out@ == encode_spec(*s),
        out@.len() == SNAPSHOT_LEN,
{
    let mut out: Vec<u8> = Vec::new();
    out.push(
        match s.state {
            GameState::Start => 0,
            GameState::Playing => 1,
        },
    );
    out.push(
        match s.ball.dx {
            AxisDir::Neg => 0,
            AxisDir::Pos => 1,
        },
    );
    out.push(
        match s.ball.dy {
            AxisDir::Neg => 0,
            AxisDir::Pos => 1,
        },
    );
    let mut word = u64_to_le_bytes(#[verifier::truncate] (s.left.y as u64));
    out.append(&mut word);
    let mut word = u64_to_le_bytes(#[verifier::truncate] (s.right.y as u64));
    out.append(&mut word);
    let mut word = u64_to_le_bytes(#[verifier::truncate] (s.ball.x as u64));
    out.append(&mut word);
    let mut word = u64_to_le_bytes(#[verifier::truncate] (s.ball.y as u64));
    out.append(&mut word);
    let mut word = u32_to_le_bytes(s.scores.left);
    out.append(&mut word);
    let mut word = u32_to_le_bytes(s.scores.right);
    out.append(&mut word);
    proof {
        assert(out@ =~= encode_spec(*s));
    }
    out
}

/// Deserializes a snapshot from its byte form; rejects any byte string that
/// no snapshot encodes to.
pub fn decode(bytes: &[u8]) -> (r: Option<Sim>)
    ensures
        r == decode_spec(bytes@),
{
    if bytes.len() != SNAPSHOT_LEN {
        return Option::None;
    }
    let st: u8 = *slice_index_get(bytes, 0);
    let dxb: u8 = *slice_index_get(bytes, 1);
    let dyb: u8 = *slice_index_get(bytes, 2);
    if !((st == 0 || st == 1) && (dxb == 0 || dxb == 1) && (dyb == 0 || dyb == 1)) {
        return Option::None;
    }
    let left_y = u64_from_le_bytes(slice_subrange(bytes, 3, 11));
    let right_y = u64_from_le_bytes(slice_subrange(bytes, 11, 19));
    let ball_x = u64_from_le_bytes(slice_subrange(bytes, 19, 27));
    let ball_y = u64_from_le_bytes(slice_subrange(bytes, 27, 35));
    let score_l = u32_from_le_bytes(slice_subrange(bytes, 35, 39));
    let score_r = u32_from_le_bytes(slice_subrange(bytes, 39, 43));
    Option::Some(
        Sim {
            state: if st == 1 {
                GameState::Playing
            } else {
                GameState::Start
            },
            left: Paddle { y: #[verifier::truncate] (left_y as i64) },
            right: Paddle { y: #[verifier::truncate] (right_y as i64) },
            ball: Ball {
                x: #[verifier::truncate] (ball_x as i64),
                y: #[verifier::truncate] (ball_y as i64),
                dx: if dxb == 1 {
                    AxisDir::Pos
                } else {
                    AxisDir::Neg
                },
                dy: if dyb == 1 {
                    AxisDir::Pos
                } else {
                    AxisDir::Neg
                },
            },
            scores: Scores { left: score_l, right: score_r },
        },
    )
}

} // verus!
