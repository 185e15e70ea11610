//! The score and the round controller, driven tick by tick.
//! Coordinates are in thousandths of a screen unit.

use pong::ball::Ball;
use pong::game::{Input, MyGame, Score};
use pong::side::Side;

const WINDOW: (i64, i64) = (800_000, 600_000);

const NO_KEYS: Input = Input { p1_up: false, p1_down: false, p2_up: false, p2_down: false };

#[test]
fn score_starts_at_zero() {
    let s = Score::new();
    assert_eq!((s.p1, s.p2), (0, 0));
}

#[test]
fn score_routes_each_side() {
    let mut s = Score::new();
    s.add_score(Side::Left);
    assert_eq!((s.p1, s.p2), (1, 0));
    s.add_score(Side::Right);
    s.add_score(Side::Right);
    assert_eq!((s.p1, s.p2), (1, 2));
    s.add_score(Side::Up);
    s.add_score(Side::Down);
    assert_eq!((s.p1, s.p2), (1, 2));
}

#[test]
fn fresh_game_is_centred() {
    let g = MyGame::new(WINDOW);
    assert_eq!((g.player1.x1, g.player1.y1), (0, 250_000));
    assert!(g.player1.bot);
    assert_eq!((g.player2.x1, g.player2.y1), (780_000, 250_000));
    assert!(!g.player2.bot);
    assert_eq!((g.ball.x, g.ball.y, g.ball.r), (390_000, 290_000, 20_000));
    assert_eq!((g.score.p1, g.score.p2), (0, 0));
    assert_eq!(g.expected_collision, Side::Up);
}

#[test]
fn plain_tick_moves_ball_bot_and_ramp() {
    let mut g = MyGame::new(WINDOW);
    g.ball = Ball { x: 390_000, y: 290_000, r: 20_000, x_speed: 3_000, y_speed: 2_000 };
    assert!(g.can_tick(WINDOW));
    g.tick(WINDOW, NO_KEYS);
    assert_eq!((g.ball.x, g.ball.y), (393_000, 292_000));
    assert_eq!(g.ball.x_speed, 3_003);
    assert_eq!(g.ball.y_speed, 2_000);
    // The left paddle is the bot: the ball moves downward, so it steps
    // down by three quarters of the vertical speed.
    assert_eq!(g.player1.y1, 251_500);
    assert_eq!(g.player2.y1, 250_000);
    assert_eq!((g.score.p1, g.score.p2), (0, 0));
    assert_eq!(g.expected_collision, Side::Up);
}

#[test]
fn exit_tick_scores_and_resets() {
    let mut g = MyGame::new(WINDOW);
    g.player1.y1 = 100_000;
    g.player2.y1 = 480_000;
    g.ball = Ball { x: -25_000, y: 300_000, r: 20_000, x_speed: -3_000, y_speed: 2_000 };
    assert!(g.can_tick(WINDOW));
    g.tick(WINDOW, NO_KEYS);
    // Leaving through the left wall awards the right player.
    assert_eq!((g.score.p1, g.score.p2), (0, 1));
    // Round reset: ball recentred, paddles back to the vertical centre,
    // the turn marker back to its round-start state; the ramp still
    // applied to the fresh ball.
    assert_eq!((g.ball.x, g.ball.y, g.ball.r), (390_000, 290_000, 20_000));
    assert!(g.ball.x_speed == 3_003 || g.ball.x_speed == -3_003);
    assert!(-5_000 <= g.ball.y_speed && g.ball.y_speed < 5_000);
    assert_eq!((g.player1.x1, g.player1.y1), (0, 250_000));
    assert_eq!((g.player2.x1, g.player2.y1), (780_000, 250_000));
    assert_eq!(g.expected_collision, Side::Up);
}

#[test]
fn exit_right_wall_scores_left_player() {
    let mut g = MyGame::new(WINDOW);
    g.ball = Ball { x: 801_000, y: 300_000, r: 20_000, x_speed: 3_000, y_speed: 2_000 };
    g.tick(WINDOW, NO_KEYS);
    assert_eq!((g.score.p1, g.score.p2), (1, 0));
}

#[test]
fn input_moves_human_paddle_only() {
    let mut g = MyGame::new(WINDOW);
    // Keep the ball away from walls and paddles.
    g.ball = Ball { x: 400_000, y: 200_000, r: 20_000, x_speed: 3_000, y_speed: -2_000 };
    let input = Input { p1_up: true, p1_down: false, p2_up: true, p2_down: false };
    g.tick(WINDOW, input);
    // The right paddle is human: the up key moves it.  The left paddle is
    // the bot: its key is ignored, and it then chases the rising ball.
    assert_eq!(g.player2.y1, 246_000);
    assert_eq!(g.player1.y1, 248_500);
}

#[test]
fn both_keys_cancel_out() {
    let mut g = MyGame::new(WINDOW);
    g.ball = Ball { x: 400_000, y: 200_000, r: 20_000, x_speed: 3_000, y_speed: -2_000 };
    let input = Input { p1_up: false, p1_down: false, p2_up: true, p2_down: true };
    g.tick(WINDOW, input);
    assert_eq!(g.player2.y1, 250_000);
}

#[test]
fn expected_left_resolves_and_passes_turn() {
    let mut g = MyGame::new(WINDOW);
    g.expected_collision = Side::Left;
    // After this tick's displacement the ball sits in the left paddle's
    // direct-hit zone: (22_000, 279_000) moves to (19_000, 280_000).
    g.ball = Ball { x: 22_000, y: 279_000, r: 20_000, x_speed: -3_000, y_speed: 1_000 };
    g.tick(WINDOW, NO_KEYS);
    assert_eq!(g.ball.x_speed, 3_003);
    assert_eq!(g.ball.y_speed, 1_000);
    assert_eq!(g.expected_collision, Side::Right);
}

#[test]
fn expected_right_skips_left_paddle() {
    let mut g = MyGame::new(WINDOW);
    g.expected_collision = Side::Right;
    g.ball = Ball { x: 22_000, y: 279_000, r: 20_000, x_speed: -3_000, y_speed: 1_000 };
    g.tick(WINDOW, NO_KEYS);
    // Only the right paddle was tested, far away: no hit, no turn change.
    assert_eq!(g.ball.x_speed, -3_003);
    assert_eq!(g.expected_collision, Side::Right);
}

#[test]
fn round_start_state_tests_both_paddles() {
    let mut g = MyGame::new(WINDOW);
    assert_eq!(g.expected_collision, Side::Up);
    g.ball = Ball { x: 22_000, y: 279_000, r: 20_000, x_speed: -3_000, y_speed: 1_000 };
    g.tick(WINDOW, NO_KEYS);
    // The left paddle fired, the right did not: the turn passes right.
    assert_eq!(g.ball.x_speed, 3_003);
    assert_eq!(g.expected_collision, Side::Right);
}

#[test]
fn next_round_keeps_score() {
    let mut g = MyGame::new(WINDOW);
    g.score.p1 = 3;
    g.score.p2 = 2;
    g.player1.y1 = 10_000;
    g.expected_collision = Side::Left;
    g.next_round(WINDOW);
    assert_eq!((g.score.p1, g.score.p2), (3, 2));
    assert_eq!(g.player1.y1, 250_000);
    assert_eq!(g.player2.y1, 250_000);
    assert_eq!((g.ball.x, g.ball.y), (390_000, 290_000));
    assert_eq!(g.expected_collision, Side::Up);
}

#[test]
fn can_tick_rejects_bad_states() {
    let mut g = MyGame::new(WINDOW);
    assert!(g.can_tick(WINDOW));
    g.ball.x_speed = 0;
    assert!(!g.can_tick(WINDOW));
    g.ball.x_speed = 3_000;
    g.ball.y = 2_000_000_000_000_000;
    assert!(!g.can_tick(WINDOW));
    let g2 = MyGame::new(WINDOW);
    assert!(!g2.can_tick((800_000, 50_000)));
}

#[test]
fn long_rally_keeps_paddles_in_window() {
    // Drive many ticks with the human player holding a key: the clamped
    // movement keeps every paddle inside the window's vertical band.
    let mut g = MyGame::new(WINDOW);
    let input = Input { p1_up: false, p1_down: false, p2_up: false, p2_down: true };
    for _ in 0..2_000 {
        assert!(g.can_tick(WINDOW));
        g.tick(WINDOW, input);
        assert!(0 <= g.player1.y1 && g.player1.y1 <= 500_000);
        assert!(0 <= g.player2.y1 && g.player2.y1 <= 500_000);
    }
}

#[test]
fn tick_bounces_off_bottom_wall() {
    let mut g = MyGame::new(WINDOW);
    g.ball = Ball { x: 400_000, y: 581_000, r: 20_000, x_speed: 3_000, y_speed: 2_000 };
    g.tick(WINDOW, NO_KEYS);
    // The pre-move bounce flips the vertical speed and the flipped speed
    // moves the ball; no score, no reset.
    assert_eq!(g.ball.y_speed, -2_000);
    assert_eq!(g.ball.y, 579_000);
    assert_eq!((g.score.p1, g.score.p2), (0, 0));
}
