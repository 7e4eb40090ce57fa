use pong::ball::ball_physics;
use pong::collision::collision;
use pong::flow::end_manager;
use pong::flow::frame;
use pong::flow::start_manager;
use pong::flow::Input;
use pong::paddle::paddle_movement;
use pong::rng::ball_physics_random;
use pong::rng::new_random_sim;
use pong::sim::score_digits;
use pong::sim::AxisDir;
use pong::sim::Ball;
use pong::sim::GameState;
use pong::sim::Paddle;
use pong::sim::Scores;
use pong::sim::Side;
use pong::sim::Sim;

fn playing_sim() -> Sim {
    Sim {
        state: GameState::Playing,
        left: Paddle { y: 0 },
        right: Paddle { y: 0 },
        ball: Ball { x: 0, y: 0, dx: AxisDir::Pos, dy: AxisDir::Pos },
        scores: Scores { left: 0, right: 0 },
    }
}

#[test]
fn new_initial_state() {
    let s = Sim::new(AxisDir::Pos, AxisDir::Neg);
    assert_eq!(s.state, GameState::Start);
    assert_eq!(s.left.y, 0);
    assert_eq!(s.right.y, 0);
    assert_eq!(s.ball.x, 0);
    assert_eq!(s.ball.y, 0);
    assert_eq!(s.ball.dx, AxisDir::Pos);
    assert_eq!(s.ball.dy, AxisDir::Neg);
    assert_eq!(s.scores, Scores { left: 0, right: 0 });
    assert!(s.title_visible());
}

#[test]
fn new_random_initial_state() {
    let s = new_random_sim();
    assert_eq!(s.state, GameState::Start);
    assert_eq!((s.ball.x, s.ball.y), (0, 0));
    assert_eq!(s.scores, Scores { left: 0, right: 0 });
    assert!(s.ball.dx == AxisDir::Pos || s.ball.dx == AxisDir::Neg);
}

#[test]
fn start_transition_resets_scores() {
    let mut s = playing_sim();
    s.state = GameState::Start;
    s.scores = Scores { left: 3, right: 4 };
    start_manager(&mut s, true);
    assert_eq!(s.state, GameState::Playing);
    assert_eq!(s.scores, Scores { left: 0, right: 0 });
    assert!(!s.title_visible());
}

#[test]
fn start_without_space_waits() {
    let mut s = playing_sim();
    s.state = GameState::Start;
    s.scores = Scores { left: 3, right: 4 };
    let before = s;
    start_manager(&mut s, false);
    assert_eq!(s, before);
    assert!(s.title_visible());
}

#[test]
fn space_ignored_while_playing() {
    let mut s = playing_sim();
    s.scores = Scores { left: 3, right: 4 };
    let before = s;
    start_manager(&mut s, true);
    assert_eq!(s, before);
}

#[test]
fn paddle_clamps_at_top() {
    let mut s = playing_sim();
    s.left.y = 270;
    // Unclamped target would be 270 + 275 = 545; the clamp keeps 280.
    paddle_movement(&mut s, Side::Left, true, false, 275, 1000);
    assert_eq!(s.left.y, 280);
    assert_eq!(s.right.y, 0);
}

#[test]
fn paddle_clamps_at_bottom() {
    let mut s = playing_sim();
    s.right.y = -270;
    paddle_movement(&mut s, Side::Right, false, true, 275, 1000);
    assert_eq!(s.right.y, -280);
}

#[test]
fn paddle_moves_down() {
    let mut s = playing_sim();
    paddle_movement(&mut s, Side::Left, false, true, 300, 100);
    assert_eq!(s.left.y, -30);
}

#[test]
fn paddle_up_key_wins() {
    let mut s = playing_sim();
    paddle_movement(&mut s, Side::Left, true, true, 300, 100);
    assert_eq!(s.left.y, 30);
}

#[test]
fn paddle_still_without_keys() {
    let mut s = playing_sim();
    s.left.y = 5;
    paddle_movement(&mut s, Side::Left, false, false, 375, 1000);
    assert_eq!(s.left.y, 5);
}

#[test]
fn paddle_waits_on_start_screen() {
    let mut s = playing_sim();
    s.state = GameState::Start;
    paddle_movement(&mut s, Side::Left, true, false, 375, 1000);
    assert_eq!(s.left.y, 0);
}

#[test]
fn right_boundary_scores_for_left() {
    let mut s = playing_sim();
    s.ball = Ball { x: 700, y: 0, dx: AxisDir::Pos, dy: AxisDir::Pos };
    ball_physics(&mut s, 200, 0, (AxisDir::Neg, AxisDir::Pos));
    assert_eq!((s.ball.x, s.ball.y), (0, 0));
    assert_eq!(s.ball.dx, AxisDir::Neg);
    assert_eq!(s.ball.dy, AxisDir::Pos);
    assert_eq!(s.scores, Scores { left: 1, right: 0 });
}

#[test]
fn left_boundary_scores_for_right() {
    let mut s = playing_sim();
    s.ball = Ball { x: -700, y: 123, dx: AxisDir::Neg, dy: AxisDir::Pos };
    ball_physics(&mut s, 200, 0, (AxisDir::Pos, AxisDir::Neg));
    assert_eq!((s.ball.x, s.ball.y), (0, 0));
    assert_eq!(s.scores, Scores { left: 0, right: 1 });
}

#[test]
fn serve_then_integrate_same_frame() {
    let mut s = playing_sim();
    s.ball = Ball { x: 700, y: 0, dx: AxisDir::Pos, dy: AxisDir::Pos };
    ball_physics(&mut s, 200, 1000, (AxisDir::Pos, AxisDir::Neg));
    assert_eq!((s.ball.x, s.ball.y), (200, -200));
    assert_eq!(s.scores, Scores { left: 1, right: 0 });
}

#[test]
fn random_serve_still_recenters() {
    let mut s = playing_sim();
    s.ball = Ball { x: 700, y: 40, dx: AxisDir::Pos, dy: AxisDir::Pos };
    ball_physics_random(&mut s, 200, 0);
    assert_eq!((s.ball.x, s.ball.y), (0, 0));
    assert_eq!(s.scores, Scores { left: 1, right: 0 });
}

#[test]
fn top_wall_bounce_flips_only_vertical() {
    let mut s = playing_sim();
    s.ball = Ball { x: 10, y: 400, dx: AxisDir::Pos, dy: AxisDir::Pos };
    ball_physics(&mut s, 300, 0, (AxisDir::Pos, AxisDir::Pos));
    assert_eq!((s.ball.x, s.ball.y), (10, 350));
    assert_eq!(s.ball.dx, AxisDir::Pos);
    assert_eq!(s.ball.dy, AxisDir::Neg);
}

#[test]
fn bottom_wall_bounce_flips_only_vertical() {
    let mut s = playing_sim();
    s.ball = Ball { x: -10, y: -400, dx: AxisDir::Neg, dy: AxisDir::Neg };
    ball_physics(&mut s, 300, 0, (AxisDir::Pos, AxisDir::Pos));
    assert_eq!((s.ball.x, s.ball.y), (-10, -350));
    assert_eq!(s.ball.dx, AxisDir::Neg);
    assert_eq!(s.ball.dy, AxisDir::Pos);
}

#[test]
fn ball_integrates_along_both_axes() {
    let mut s = playing_sim();
    s.ball = Ball { x: 0, y: 0, dx: AxisDir::Pos, dy: AxisDir::Neg };
    ball_physics(&mut s, 300, 500, (AxisDir::Pos, AxisDir::Pos));
    assert_eq!((s.ball.x, s.ball.y), (150, -150));
}

#[test]
fn ball_waits_on_start_screen() {
    let mut s = playing_sim();
    s.state = GameState::Start;
    s.ball = Ball { x: 700, y: 400, dx: AxisDir::Pos, dy: AxisDir::Pos };
    let before = s;
    ball_physics(&mut s, 300, 1000, (AxisDir::Neg, AxisDir::Neg));
    assert_eq!(s, before);
}

#[test]
fn collision_reflects_fully() {
    let mut s = playing_sim();
    s.ball = Ball { x: -600, y: 10, dx: AxisDir::Neg, dy: AxisDir::Neg };
    collision(&mut s);
    assert_eq!((s.ball.x, s.ball.y), (-600, 10));
    assert_eq!(s.ball.dx, AxisDir::Pos);
    assert_eq!(s.ball.dy, AxisDir::Pos);
}

#[test]
fn collision_with_right_paddle() {
    let mut s = playing_sim();
    s.right.y = 40;
    s.ball = Ball { x: 610, y: 100, dx: AxisDir::Pos, dy: AxisDir::Pos };
    collision(&mut s);
    assert_eq!(s.ball.dx, AxisDir::Neg);
    assert_eq!(s.ball.dy, AxisDir::Neg);
}

#[test]
fn collision_misses_outside_box() {
    let mut s = playing_sim();
    s.ball = Ball { x: -600, y: 80, dx: AxisDir::Neg, dy: AxisDir::Pos };
    let before = s;
    collision(&mut s);
    assert_eq!(s, before);
}

#[test]
fn win_returns_to_start_screen() {
    let mut s = playing_sim();
    s.scores = Scores { left: 10, right: 3 };
    s.left.y = 50;
    s.right.y = -30;
    end_manager(&mut s);
    assert_eq!(s.state, GameState::Start);
    assert_eq!(s.left.y, 0);
    assert_eq!(s.right.y, 0);
    assert_eq!(s.scores, Scores { left: 10, right: 3 });
    assert!(s.title_visible());
}

#[test]
fn no_win_below_threshold() {
    let mut s = playing_sim();
    s.scores = Scores { left: 9, right: 3 };
    s.left.y = 50;
    let before = s;
    end_manager(&mut s);
    assert_eq!(s, before);
}

#[test]
fn frame_without_input_moves_nothing() {
    let mut s = playing_sim();
    s.left.y = 50;
    s.right.y = -60;
    s.ball = Ball { x: 100, y: 200, dx: AxisDir::Pos, dy: AxisDir::Neg };
    s.scores = Scores { left: 2, right: 3 };
    let before = s;
    frame(&mut s, Input::none(), 0, (AxisDir::Pos, AxisDir::Pos));
    assert_eq!(s, before);
}

#[test]
fn frame_starts_and_moves_in_one_frame() {
    let mut s = Sim::new(AxisDir::Pos, AxisDir::Pos);
    let input = Input { space: true, w: true, s: false, up: false, down: true };
    frame(&mut s, input, 100, (AxisDir::Pos, AxisDir::Pos));
    assert_eq!(s.state, GameState::Playing);
    assert_eq!(s.left.y, 37); // 375 * 100 / 1000, rounded down
    assert_eq!(s.right.y, -37);
    assert_eq!((s.ball.x, s.ball.y), (30, 30)); // 300 * 100 / 1000
}

#[test]
fn frame_scores_and_ends_round() {
    let mut s = playing_sim();
    s.scores = Scores { left: 9, right: 0 };
    s.left.y = 120;
    s.ball = Ball { x: 700, y: 0, dx: AxisDir::Pos, dy: AxisDir::Pos };
    frame(&mut s, Input::none(), 0, (AxisDir::Neg, AxisDir::Pos));
    assert_eq!(s.scores, Scores { left: 10, right: 0 });
    assert_eq!(s.state, GameState::Start);
    assert_eq!(s.left.y, 0);
    assert_eq!(s.right.y, 0);
    assert_eq!((s.ball.x, s.ball.y), (0, 0));
}

#[test]
fn scoreboard_reports_both_values() {
    let mut s = playing_sim();
    s.scores = Scores { left: 7, right: 12 };
    assert_eq!(s.scoreboard(), (7, 12));
}

#[test]
fn score_digits_render_decimal() {
    assert_eq!(score_digits(0), b"0".to_vec());
    assert_eq!(score_digits(7), b"7".to_vec());
    assert_eq!(score_digits(10), b"10".to_vec());
    assert_eq!(score_digits(4294967295), b"4294967295".to_vec());
}
