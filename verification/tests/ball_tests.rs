//! Ball motion, bouncing and exit signalling, on concrete states.
//! All coordinates are in thousandths of a screen unit, so an 800 by 600
//! window is `(800_000, 600_000)`.

use pong::ball::Ball;
use pong::side::Side;

const WINDOW: (i64, i64) = (800_000, 600_000);

#[test]
fn plain_move_adds_speeds_exactly() {
    // Window 800x600, ball at (390, 290), r = 20, speeds (3, 2): one update
    // moves it to (393, 292) with no outcome.
    let mut b = Ball { x: 390_000, y: 290_000, r: 20_000, x_speed: 3_000, y_speed: 2_000 };
    let r = b.update(WINDOW);
    assert_eq!(r, Err(()));
    assert_eq!((b.x, b.y), (393_000, 292_000));
    assert_eq!((b.x_speed, b.y_speed), (3_000, 2_000));
    assert_eq!(b.r, 20_000);
}

#[test]
fn exit_left_wall_awards_right_player() {
    // Ball at x = -25 with r = 20 and x_speed = -3: the pre-move exit check
    // fires for the right player and the displacement still applies.
    let mut b = Ball { x: -25_000, y: 300_000, r: 20_000, x_speed: -3_000, y_speed: 2_000 };
    let r = b.update(WINDOW);
    assert_eq!(r, Ok(Side::Right));
    assert_eq!(b.x, -28_000);
}

#[test]
fn exit_right_wall_awards_left_player() {
    let mut b = Ball { x: 800_001, y: 300_000, r: 20_000, x_speed: 3_000, y_speed: 2_000 };
    let r = b.update(WINDOW);
    assert_eq!(r, Ok(Side::Left));
    assert_eq!(b.x, 803_001);
}

#[test]
fn top_wall_flips_y_speed() {
    // Pre-move y < 0: the vertical speed flips and the flipped speed is the
    // one applied to the position.
    let mut b = Ball { x: 100_000, y: -1_000, r: 20_000, x_speed: 3_000, y_speed: -2_000 };
    let r = b.update(WINDOW);
    assert_eq!(r, Err(()));
    assert_eq!(b.y_speed, 2_000);
    assert_eq!(b.y, 1_000);
}

#[test]
fn bottom_wall_flips_y_speed() {
    // Pre-move y + r > window height.
    let mut b = Ball { x: 100_000, y: 581_000, r: 20_000, x_speed: 3_000, y_speed: 2_000 };
    let r = b.update(WINDOW);
    assert_eq!(r, Err(()));
    assert_eq!(b.y_speed, -2_000);
    assert_eq!(b.y, 579_000);
}

#[test]
fn inside_band_does_not_flip() {
    // y = 0 and y + r = window height are both tolerated without a bounce.
    let mut b = Ball { x: 100_000, y: 0, r: 20_000, x_speed: 3_000, y_speed: 2_000 };
    assert_eq!(b.update(WINDOW), Err(()));
    assert_eq!(b.y_speed, 2_000);
    let mut b2 = Ball { x: 100_000, y: 580_000, r: 20_000, x_speed: 3_000, y_speed: 2_000 };
    assert_eq!(b2.update(WINDOW), Err(()));
    assert_eq!(b2.y_speed, 2_000);
}

#[test]
fn fresh_ball_is_centred_with_bounded_speeds() {
    // The randomized wrapper outputs must land in the stated ranges; the
    // position and size are deterministic.
    for _ in 0..50 {
        let b = Ball::new(WINDOW);
        assert_eq!(b.r, 20_000);
        assert_eq!(b.x, 390_000);
        assert_eq!(b.y, 290_000);
        assert!(b.x_speed == 3_000 || b.x_speed == -3_000);
        assert!(-5_000 <= b.y_speed && b.y_speed < 5_000);
    }
}

#[test]
fn speed_ramp_scales_magnitude_keeping_sign() {
    let mut b = Ball { x: 0, y: 0, r: 20_000, x_speed: 3_000, y_speed: 2_000 };
    b.speed_ramp();
    assert_eq!(b.x_speed, 3_003);
    let mut b2 = Ball { x: 0, y: 0, r: 20_000, x_speed: -3_000, y_speed: 2_000 };
    b2.speed_ramp();
    assert_eq!(b2.x_speed, -3_003);
    // Rounding is toward zero on the magnitude.
    let mut b3 = Ball { x: 0, y: 0, r: 20_000, x_speed: -999, y_speed: 0 };
    b3.speed_ramp();
    assert_eq!(b3.x_speed, -999);
}
