//! The ball: fixed-point position, velocity, and per-tick motion.

use vstd::prelude::*;

use crate::side::Side;
use rand::Rng;

verus! {

/// Side length of the ball's bounding square, in thousandths of a unit
/// (20 screen units).
pub const BALL_RADIUS: i64 = 20_000;

/// Magnitude of the horizontal speed a fresh ball starts with, in
/// thousandths of a unit per tick (3 screen units per tick).
pub const INIT_X_SPEED: i64 = 3_000;

/// Exclusive bound on the magnitude of the vertical speed a fresh ball
/// starts with: `y_speed` is drawn uniformly from
/// `[-MAX_INIT_Y_SPEED, MAX_INIT_Y_SPEED)`.
pub const MAX_INIT_Y_SPEED: i64 = 5_000;

/// The mathematical value of a [`Ball`]: the same five quantities as
/// unbounded integers.
pub ghost struct BallModel {
    pub x: int,
    pub y: int,
    pub r: int,
    pub x_speed: int,
    pub y_speed: int,
}

/// The ball is an axis-aligned square: `(x, y)` is its top-left corner and
/// `r` is its side length.  All fields are in thousandths of a screen unit;
/// the speeds are signed displacements applied once per tick.
pub struct Ball {
    pub x: i64,
    pub y: i64,
    pub r: i64,
    pub x_speed: i64,
    pub y_speed: i64,
}

impl View for Ball {
    type V = BallModel;

    open spec fn view(&self) -> BallModel {
        BallModel {
            x: self.x as int,
            y: self.y as int,
            r: self.r as int,
            x_speed: self.x_speed as int,
            y_speed: self.y_speed as int,
        }
    }
}

/// Whether the ball, at its pre-move position, touches the top or bottom
/// wall of a window `window_h` units tall and must reverse vertically.
pub open spec fn bounces(b: BallModel, window_h: int) -> bool {
    b.y < 0 || b.y + b.r > window_h
}

/// The scoring signal the ball produces at its pre-move position in a
/// window `window_w` units wide: leaving through the left wall awards the
/// right player (`Ok(Side::Right)`), leaving through the right wall awards
/// the left player (`Ok(Side::Left)`), and `Err(())` means play goes on.
pub open spec fn exit_of(b: BallModel, window_w: int) -> Result<Side, ()> {
    if b.x + b.r < 0 {
        Ok(Side::Right)
    } else if b.x > window_w {
        Ok(Side::Left)
    } else {
        Err(())
    }
}

/// One tick of ball motion in a `window_w` by `window_h` window: the
/// vertical speed reverses exactly when [`bounces`] holds of the pre-move
/// position, and the displacement — with the reversed vertical speed where
/// a bounce fired — is then applied unconditionally.
pub open spec fn ball_step(b: BallModel, window_w: int, window_h: int) -> BallModel {
    let y_speed = if bounces(b, window_h) {
        -b.y_speed
    } else {
        b.y_speed
    };
    BallModel { x: b.x + b.x_speed, y: b.y + y_speed, r: b.r, x_speed: b.x_speed, y_speed }
}

/// The per-tick speed ramp: the horizontal speed's magnitude grows by a
/// factor of 1001/1000 (rounded down), keeping its sign.
pub open spec fn ramped(x_speed: int) -> int {
    if x_speed >= 0 {
        x_speed * 1001 / 1000
    } else {
        -((-x_speed) * 1001 / 1000)
    }
}

/// Exiting left and exiting right exclude each other: with a non-negative
/// side length smaller than the window width, the two pre-move exit
/// conditions cannot hold at once, so each exit signal characterises its
/// own condition exactly.
pub proof fn lemma_exits_exclusive(b: BallModel, window_w: int)
    requires
        0 <= b.r < window_w,
    ensures
        !(b.x + b.r < 0 && b.x > window_w),
        exit_of(b, window_w) == Ok::<Side, ()>(Side::Right) <==> b.x + b.r < 0,
        exit_of(b, window_w) == Ok::<Side, ()>(Side::Left) <==> b.x > window_w,
{
}

/// Relies on rand::Rng::gen::<bool> (through rand::thread_rng): an
/// arbitrary boolean, so nothing is promised of the result.
#[verifier::external_body]
fn coin_flip() -> bool {
    rand::thread_rng().gen::<bool>()
}

/// Relies on rand::Rng::gen_range over `lo..hi` (through
/// rand::thread_rng): a value drawn from the half-open range, which
/// panics only when the range is empty.
#[verifier::external_body]
fn pick_in_range(lo: i64, hi: i64) -> (r: i64)
    requires
        lo < hi,
    ensures
        lo <= r < hi,
{
    rand::thread_rng().gen_range(lo..hi)
}

impl Ball {
    /// A fresh ball for a new round: centred in the window, with a
    /// horizontal speed of full magnitude in a random direction and a
    /// random vertical speed.
    pub fn new(window_size: (i64, i64)) -> (b: Ball)
        requires
            BALL_RADIUS <= window_size.0,
            BALL_RADIUS <= window_size.1,
        ensures
            b.r == BALL_RADIUS,
            b.x == (window_size.0 - BALL_RADIUS) / 2,
            b.y == (window_size.1 - BALL_RADIUS) / 2,
            b.x_speed == INIT_X_SPEED || b.x_speed == -INIT_X_SPEED,
            -MAX_INIT_Y_SPEED <= b.y_speed < MAX_INIT_Y_SPEED,
    {
        let x_speed: i64 = if coin_flip() {
            INIT_X_SPEED
        } else {
            -INIT_X_SPEED
        };
        let y_speed: i64 = pick_in_range(-MAX_INIT_Y_SPEED, MAX_INIT_Y_SPEED);
        Ball {
            x: (window_size.0 - BALL_RADIUS) / 2,
            y: (window_size.1 - BALL_RADIUS) / 2,
            r: BALL_RADIUS,
            x_speed,
            y_speed,
        }
    }

    /// The pre-move wall interaction: reverse `y_speed` on a top or bottom
    /// touch, and report which side scores if the ball has left the field.
    fn screen_collision(&mut self, window_size: (i64, i64)) -> (r: Result<Side, ()>)
        requires
            i64::MIN <= old(self).y + old(self).r <= i64::MAX,
            i64::MIN <= old(self).x + old(self).r <= i64::MAX,
            i64::MIN < old(self).y_speed,
        ensures
            final(self).x == old(self).x,
            final(self).y == old(self).y,
            final(self).r == old(self).r,
            final(self).x_speed == old(self).x_speed,
            final(self).y_speed == if bounces(old(self)@, window_size.1 as int) {
                -old(self).y_speed
            } else {
                old(self).y_speed as int
            },
            r == exit_of(old(self)@, window_size.0 as int),
    {
        if self.y < 0 || self.y + self.r > window_size.1 {
            self.y_speed = -self.y_speed;
        }
        if self.x + self.r < 0 {
            return Ok(Side::Right);
        }
        if self.x > window_size.0 {
            return Ok(Side::Left);
        }
        Err(())
    }

    /// One simulation tick: resolve the pre-move wall interaction, then
    /// apply the displacement unconditionally, and hand back the exit
    /// signal that was captured before the move.
    pub fn update(&mut self, window_size: (i64, i64)) -> (r: Result<Side, ()>)
        requires
            i64::MIN <= old(self).y + old(self).r <= i64::MAX,
            i64::MIN <= old(self).x + old(self).r <= i64::MAX,
            i64::MIN < old(self).y_speed,
            i64::MIN <= old(self).x + old(self).x_speed <= i64::MAX,
            i64::MIN <= ball_step(old(self)@, window_size.0 as int, window_size.1 as int).y
                <= i64::MAX,
        ensures
            final(self)@ == ball_step(old(self)@, window_size.0 as int, window_size.1 as int),
            r == exit_of(old(self)@, window_size.0 as int),
    {
        let sc_result = self.screen_collision(window_size);
        self.x = self.x + self.x_speed;
        self.y = self.y + self.y_speed;
        sc_result
    }

    /// Apply the escalating-difficulty ramp to the horizontal speed.
    pub fn speed_ramp(&mut self)
        requires
            -9_000_000_000_000_000 <= old(self).x_speed <= 9_000_000_000_000_000,
        ensures
            final(self).x_speed == ramped(old(self).x_speed as int),
            final(self).x == old(self).x,
            final(self).y == old(self).y,
            final(self).r == old(self).r,
            final(self).y_speed == old(self).y_speed,
    {
        let magnitude: i64 = if self.x_speed >= 0 {
            self.x_speed
        } else {
            -self.x_speed
        };
        self.x_speed = if self.x_speed >= 0 {
            magnitude * 1001 / 1000
        } else {
            -(magnitude * 1001 / 1000)
        };
    }
}

} // verus!
