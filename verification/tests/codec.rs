use pong::codec::decode;
use pong::codec::encode;
use pong::flow::frame;
use pong::flow::Input;
use pong::sim::AxisDir;
use pong::sim::Ball;
use pong::sim::GameState;
use pong::sim::Paddle;
use pong::sim::Scores;
use pong::sim::Sim;

fn sample_sim() -> Sim {
    Sim {
        state: GameState::Playing,
        left: Paddle { y: -120 },
        right: Paddle { y: 77 },
        ball: Ball { x: -41, y: 333, dx: AxisDir::Neg, dy: AxisDir::Pos },
        scores: Scores { left: 4, right: 9 },
    }
}

#[test]
fn round_trip_returns_snapshot() {
    let s = sample_sim();
    let bytes = encode(&s);
    assert_eq!(bytes.len(), 43);
    assert_eq!(decode(&bytes), Some(s));
}

#[test]
fn round_trip_initial_snapshot() {
    let s = Sim::new(AxisDir::Pos, AxisDir::Neg);
    assert_eq!(decode(&encode(&s)), Some(s));
}

#[test]
fn encoding_opens_with_tags() {
    let bytes = encode(&sample_sim());
    assert_eq!(bytes[0], 1); // Playing
    assert_eq!(bytes[1], 0); // horizontal component negative
    assert_eq!(bytes[2], 1); // vertical component positive
}

#[test]
fn wrong_length_is_rejected() {
    let mut bytes = encode(&sample_sim());
    bytes.push(0);
    assert_eq!(decode(&bytes), None);
    assert_eq!(decode(&[]), None);
}

#[test]
fn bad_tag_is_rejected() {
    let mut bytes = encode(&sample_sim());
    bytes[0] = 2;
    assert_eq!(decode(&bytes), None);
    let mut bytes = encode(&sample_sim());
    bytes[1] = 9;
    assert_eq!(decode(&bytes), None);
}

#[test]
fn decoded_snapshot_replays_identically() {
    let mut original = sample_sim();
    let mut restored = decode(&encode(&original)).unwrap();
    let inputs = [
        Input { space: false, w: true, s: false, up: false, down: true },
        Input { space: false, w: false, s: true, up: true, down: false },
        Input { space: false, w: false, s: false, up: false, down: false },
    ];
    for input in inputs {
        frame(&mut original, input, 16, (AxisDir::Pos, AxisDir::Neg));
        frame(&mut restored, input, 16, (AxisDir::Pos, AxisDir::Neg));
        assert_eq!(original, restored);
    }
}
