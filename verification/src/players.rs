//! The paddles: clamped vertical movement, collision resolution against the
//! ball, and the bot-control heuristic.

use vstd::prelude::*;

use crate::ball::{Ball, BallModel};
use crate::side::Side;

verus! {

/// Paddle width in thousandths of a unit (20 screen units).
pub const PADDLE_WIDTH: i64 = 20_000;

/// Paddle height in thousandths of a unit (100 screen units).
pub const PADDLE_HEIGHT: i64 = 100_000;

/// Bound on every coordinate, length and speed fed to the collision
/// routines, so that sums of a few of them stay well inside `i64`.
pub const COORD_MAX: i64 = 2_000_000_000_000_000;

/// Whether one quantity is small enough for the collision arithmetic.
pub open spec fn coord_ok(v: int) -> bool {
    -COORD_MAX <= v <= COORD_MAX
}

/// Whether every field the collision routines read is [`coord_ok`].
pub open spec fn ball_coords_ok(b: BallModel) -> bool {
    coord_ok(b.x) && coord_ok(b.y) && coord_ok(b.r) && coord_ok(b.x_speed) && coord_ok(b.y_speed)
}

/// Whether every field of a paddle is [`coord_ok`].
pub open spec fn player_coords_ok(p: PlayerModel) -> bool {
    coord_ok(p.x1) && coord_ok(p.y1) && coord_ok(p.width) && coord_ok(p.height)
}

/// The mathematical value of a [`Player`]: its rectangle as unbounded
/// integers, plus the two construction-time flags.
pub ghost struct PlayerModel {
    pub x1: int,
    pub y1: int,
    pub width: int,
    pub height: int,
    pub side: Side,
    pub bot: bool,
}

/// A paddle: `(x1, y1)` is the top-left corner of its rectangle, in
/// thousandths of a screen unit.  `side` fixes which edge of the window it
/// guards and never changes after construction; `bot` selects automatic
/// control.
pub struct Player {
    pub x1: i64,
    pub y1: i64,
    pub width: i64,
    pub height: i64,
    pub side: Side,
    pub bot: bool,
}

impl View for Player {
    type V = PlayerModel;

    open spec fn view(&self) -> PlayerModel {
        PlayerModel {
            x1: self.x1 as int,
            y1: self.y1 as int,
            width: self.width as int,
            height: self.height as int,
            side: self.side,
            bot: self.bot,
        }
    }
}

/// Result of an upward step of `speed`: the paddle stops at the top edge
/// rather than leaving the window.
pub open spec fn moved_up(y1: int, speed: int) -> int {
    if y1 > speed {
        y1 - speed
    } else {
        0
    }
}

/// Result of a downward step of `speed` in a window `window_y` tall: the
/// paddle stops with its bottom edge on the window's bottom edge.
pub open spec fn moved_down(y1: int, height: int, speed: int, window_y: int) -> int {
    if y1 + height + speed > window_y {
        window_y - height
    } else {
        y1 + speed
    }
}

/// The vertical position after a [`Player::y_move`] call: `Up` and `Down`
/// move with clamping, any other tag is a no-op.
pub open spec fn y_moved(y1: int, height: int, side: Side, speed: int, window_y: int) -> int {
    match side {
        Side::Up => moved_up(y1, speed),
        Side::Down => moved_down(y1, height, speed, window_y),
        _ => y1,
    }
}

/// `n1 / d1 > n2 / d2` as exact rationals (for nonzero denominators).
/// The collision logic compares the arctangents of two slopes; since the
/// arctangent is strictly increasing, that is the same as comparing the
/// slopes themselves, which cross-multiplication decides exactly.
pub open spec fn ratio_gt(n1: int, d1: int, n2: int, d2: int) -> bool
    recommends
        d1 != 0,
        d2 != 0,
{
    if d1 * d2 > 0 {
        n1 * d2 > n2 * d1
    } else {
        n1 * d2 < n2 * d1
    }
}

/// `n1 / d1 == n2 / d2` as exact rationals (for nonzero denominators).
pub open spec fn ratio_eq(n1: int, d1: int, n2: int, d2: int) -> bool
    recommends
        d1 != 0,
        d2 != 0,
{
    n1 * d2 == n2 * d1
}

/// The ball's vertical span straddles the paddle's bottom edge: the ball
/// comes in across the lower corner.
pub open spec fn down_band(p: PlayerModel, b: BallModel) -> bool {
    p.y1 + p.height > b.y && p.y1 + p.height < b.y + b.r
}

/// The ball's vertical span straddles the paddle's top edge: the ball
/// comes in across the upper corner.
pub open spec fn up_band(p: PlayerModel, b: BallModel) -> bool {
    p.y1 < b.y + b.r && p.y1 > b.y
}

/// A direct (edge) hit: the ball sits fully inside the paddle's vertical
/// span and has reached the paddle's facing edge horizontally.
pub open spec fn direct_hit(p: PlayerModel, b: BallModel) -> bool {
    ((p.side == Side::Left && p.x1 + p.width > b.x) || (p.side == Side::Right && p.x1 < b.x
        + b.r)) && p.y1 < b.y && p.y1 + p.height > b.y + b.r
}

/// Which corner case fires, and with which two slopes, as the quadruple
/// `(n1, d1, n2, d2)`: `n1 / d1` is the ball's approach slope, taken from
/// its previous-frame position `(x - x_speed, y - y_speed)` with the
/// corner as reference, and `n2 / d2` is the corner's incidence slope
/// toward the relevant paddle edge.  The four quadrants (left or right
/// paddle, bottom or top corner) keep their own mirrored sign
/// conventions, and the bottom corner is tried first on both sides.
/// `None` means no corner case fires.
pub open spec fn corner_ratios(p: PlayerModel, b: BallModel) -> Option<(int, int, int, int)> {
    match p.side {
        Side::Left => {
            if p.x1 + p.width > b.x && p.x1 < b.x && down_band(p, b) {
                Some((-b.y_speed, -b.x_speed, p.y1 + p.height - b.y, p.x1 + p.width - b.x))
            } else if p.x1 + p.width > b.x && p.x1 < b.x && up_band(p, b) {
                Some((b.y_speed, -b.x_speed, b.y + b.r - p.y1, p.x1 + p.width - b.x))
            } else {
                None
            }
        },
        Side::Right => {
            if p.x1 < b.x + b.r && p.x1 + p.width > b.x + b.r && down_band(p, b) {
                Some((-b.y_speed, b.x_speed, p.y1 + p.height - b.y, b.x + b.r - p.x1))
            } else if p.x1 < b.x + b.r && up_band(p, b) {
                Some((b.y_speed, b.x_speed, b.x + b.r - p.y1, b.x + b.r - p.x1))
            } else {
                None
            }
        },
        _ => None,
    }
}

/// The ball after a corner hit: a steeper approach than the corner's
/// incidence slope reflects the vertical speed, a shallower one reflects
/// the horizontal speed, and a dead-on match reflects both.
pub open spec fn corner_ball(p: PlayerModel, b: BallModel) -> BallModel
    recommends
        corner_ratios(p, b) is Some,
{
    match corner_ratios(p, b) {
        Some(q) => {
            let gt = ratio_gt(q.0, q.1, q.2, q.3);
            let eq = ratio_eq(q.0, q.1, q.2, q.3);
            BallModel {
                x_speed: if gt {
                    b.x_speed
                } else {
                    -b.x_speed
                },
                y_speed: if gt || eq {
                    -b.y_speed
                } else {
                    b.y_speed
                },
                ..b
            }
        },
        None => b,
    }
}

/// Whether a [`Player::collision`] call reports a hit: a corner case, or
/// failing that a direct hit.
pub open spec fn hits(p: PlayerModel, b: BallModel) -> bool {
    corner_ratios(p, b) is Some || direct_hit(p, b)
}

/// The ball after a [`Player::collision`] call: corner resolution is
/// attempted first, a direct hit only reverses the horizontal speed, and
/// a miss leaves the ball untouched.
pub open spec fn collided_ball(p: PlayerModel, b: BallModel) -> BallModel {
    if corner_ratios(p, b) is Some {
        corner_ball(p, b)
    } else if direct_hit(p, b) {
        BallModel { x_speed: -b.x_speed, ..b }
    } else {
        b
    }
}

/// A firing corner case reflects at least one speed, and nothing but a
/// reflection ever happens: with both speeds nonzero the ball never
/// leaves a corner hit with its velocity unchanged.
pub proof fn lemma_corner_flips(p: PlayerModel, b: BallModel)
    requires
        corner_ratios(p, b) is Some,
        b.x_speed != 0,
        b.y_speed != 0,
    ensures
        corner_ball(p, b).x_speed == b.x_speed || corner_ball(p, b).x_speed == -b.x_speed,
        corner_ball(p, b).y_speed == b.y_speed || corner_ball(p, b).y_speed == -b.y_speed,
        corner_ball(p, b).x_speed == -b.x_speed || corner_ball(p, b).y_speed == -b.y_speed,
        !(corner_ball(p, b).x_speed == b.x_speed && corner_ball(p, b).y_speed == b.y_speed),
        corner_ball(p, b).x == b.x && corner_ball(p, b).y == b.y && corner_ball(p, b).r == b.r,
{
}

/// A direct hit that no corner case pre-empts reverses exactly the
/// horizontal speed and never alters the vertical speed.
pub proof fn lemma_direct_flip(p: PlayerModel, b: BallModel)
    requires
        corner_ratios(p, b) is None,
        direct_hit(p, b),
    ensures
        hits(p, b),
        collided_ball(p, b).x_speed == -b.x_speed,
        collided_ball(p, b).y_speed == b.y_speed,
        collided_ball(p, b).x == b.x && collided_ball(p, b).y == b.y && collided_ball(p, b).r
            == b.r,
{
}

/// The speed at which the bot chases the ball: three quarters of the
/// magnitude of the ball's vertical speed, rounded down.
pub open spec fn bot_speed(y_speed: int) -> int {
    if y_speed >= 0 {
        3 * y_speed / 4
    } else {
        3 * (-y_speed) / 4
    }
}

/// The paddle's vertical position after a [`Player::bot_move`] call: a
/// manual paddle stays put; a bot paddle steps toward the ball's current
/// vertical direction at [`bot_speed`], with the usual clamping.
pub open spec fn bot_moved(p: PlayerModel, b: BallModel, window_y: int) -> int {
    if !p.bot {
        p.y1
    } else if b.y_speed >= 0 {
        moved_down(p.y1, p.height, bot_speed(b.y_speed), window_y)
    } else {
        moved_up(p.y1, bot_speed(b.y_speed))
    }
}

/// Which of two exact rationals is larger: `1`, `0` or `-1` as
/// `n1 / d1` compares greater, equal or smaller to `n2 / d2`.
fn ratio_cmp(n1: i64, d1: i64, n2: i64, d2: i64) -> (c: i64)
    requires
        d1 != 0,
        d2 != 0,
    ensures
        c == 1 || c == 0 || c == -1,
        (c == 1) == ratio_gt(n1 as int, d1 as int, n2 as int, d2 as int),
        (c == 0) == ratio_eq(n1 as int, d1 as int, n2 as int, d2 as int),
{
    let a: i128 = n1 as i128;
    let b: i128 = d2 as i128;
    let a2: i128 = n2 as i128;
    let b2: i128 = d1 as i128;
    proof {
        lemma_i64_products_fit(a as int, b as int);
        lemma_i64_products_fit(a2 as int, b2 as int);
        assert(((d1 as int) * (d2 as int) > 0) == ((d1 > 0) == (d2 > 0)))
            by (nonlinear_arith)
            requires
                d1 != 0,
                d2 != 0,
        ;
    }
    let p: i128 = a * b;
    let q: i128 = a2 * b2;
    let same_sign: bool = (d1 > 0) == (d2 > 0);
    if p == q {
        0
    } else if same_sign == (p > q) {
        1
    } else {
        -1
    }
}

/// The product of two values of `i64` magnitude stays within `i128`.
proof fn lemma_i64_products_fit(a: int, b: int)
    requires
        i64::MIN <= a <= i64::MAX,
        i64::MIN <= b <= i64::MAX,
    ensures
        i128::MIN <= a * b <= i128::MAX,
{
    assert(i128::MIN <= a * b <= i128::MAX) by (nonlinear_arith)
        requires
            -0x8000_0000_0000_0000 <= a <= 0x7fff_ffff_ffff_ffff,
            -0x8000_0000_0000_0000 <= b <= 0x7fff_ffff_ffff_ffff,
    ;
}

impl Player {
    /// A fresh paddle for its side of a window: flush against the left or
    /// right edge, vertically centred.  Any tag other than `Left` or
    /// `Right` is a construction error.
    pub fn new(side: Side, size_window: (i64, i64), bot: bool) -> (r: Result<Player, ()>)
        requires
            PADDLE_WIDTH <= size_window.0,
            PADDLE_HEIGHT <= size_window.1,
        ensures
            r is Ok <==> (side == Side::Left || side == Side::Right),
            r matches Ok(p) ==> {
                &&& p.width == PADDLE_WIDTH
                &&& p.height == PADDLE_HEIGHT
                &&& p@.side == side
                &&& p.bot == bot
                &&& p.y1 == size_window.1 / 2 - PADDLE_HEIGHT / 2
                &&& p.x1 == if side == Side::Left {
                    0
                } else {
                    size_window.0 - PADDLE_WIDTH
                }
            },
    {
        let y: i64 = size_window.1 / 2 - PADDLE_HEIGHT / 2;
        let x: i64 = match side {
            Side::Left => 0,
            Side::Right => size_window.0 - PADDLE_WIDTH,
            _ => {
                return Err(());
            },
        };
        Ok(Player { x1: x, y1: y, width: PADDLE_WIDTH, height: PADDLE_HEIGHT, side, bot })
    }

    /// Move up by `speed`, stopping at the top edge.
    fn move_up(&mut self, speed: i64)
        requires
            speed >= 0,
        ensures
            final(self).y1 == moved_up(old(self).y1 as int, speed as int),
            final(self).x1 == old(self).x1,
            final(self).width == old(self).width,
            final(self).height == old(self).height,
            final(self)@.side == old(self)@.side,
            final(self).bot == old(self).bot,
    {
        if self.y1 > speed {
            self.y1 = self.y1 - speed;
        } else {
            self.y1 = 0;
        }
    }

    /// Move down by `speed`, stopping with the paddle's bottom edge on the
    /// window's bottom edge.
    fn move_down(&mut self, speed: i64, window_y: i64)
        requires
            speed >= 0,
            old(self).height >= 0,
            old(self).y1 + old(self).height + speed <= i64::MAX,
            i64::MIN <= window_y - old(self).height,
        ensures
            final(self).y1 == moved_down(
                old(self).y1 as int,
                old(self).height as int,
                speed as int,
                window_y as int,
            ),
            final(self).x1 == old(self).x1,
            final(self).width == old(self).width,
            final(self).height == old(self).height,
            final(self)@.side == old(self)@.side,
            final(self).bot == old(self).bot,
    {
        if self.y1 + self.height + speed > window_y {
            self.y1 = window_y - self.height;
        } else {
            self.y1 = self.y1 + speed;
        }
    }

    /// Clamped vertical movement: `Up` and `Down` step by `speed` with the
    /// window edges as hard stops, any other tag leaves the paddle alone.
    /// A paddle that starts inside the window's vertical band stays inside
    /// it, whatever the speed.
    pub fn y_move(&mut self, side: Side, speed: i64, window_y: i64)
        requires
            speed >= 0,
            old(self).height >= 0,
            old(self).y1 + old(self).height + speed <= i64::MAX,
            i64::MIN <= window_y - old(self).height,
        ensures
            final(self).y1 == y_moved(
                old(self).y1 as int,
                old(self).height as int,
                side,
                speed as int,
                window_y as int,
            ),
            final(self).x1 == old(self).x1,
            final(self).width == old(self).width,
            final(self).height == old(self).height,
            final(self)@.side == old(self)@.side,
            final(self).bot == old(self).bot,
            0 <= old(self).y1 <= window_y - old(self).height ==> 0 <= final(self).y1 <= window_y
                - final(self).height,
    {
        match side {
            Side::Up => self.move_up(speed),
            Side::Down => self.move_down(speed, window_y),
            _ => (),
        }
    }

    /// A direct (edge) hit reverses the ball's horizontal speed; a miss
    /// changes nothing.  `Ok` reports the hit.
    fn direct_collision(&self, ball: &mut Ball) -> (r: Result<(), ()>)
        requires
            player_coords_ok(self@),
            ball_coords_ok(old(ball)@),
        ensures
            r is Ok <==> direct_hit(self@, old(ball)@),
            final(ball)@ == if direct_hit(self@, old(ball)@) {
                BallModel { x_speed: -old(ball)@.x_speed, ..old(ball)@ }
            } else {
                old(ball)@
            },
    {
        let facing_edge_reached: bool = match self.side {
            Side::Left => self.x1 + self.width > ball.x,
            Side::Right => self.x1 < ball.x + ball.r,
            _ => false,
        };
        if facing_edge_reached && self.y1 < ball.y && self.y1 + self.height > ball.y + ball.r {
            ball.x_speed = -ball.x_speed;
            return Ok(());
        }
        Err(())
    }

    /// Corner resolution: when the ball's vertical span straddles the
    /// paddle's bottom or top edge and the ball has horizontally reached
    /// the paddle, compare the ball's approach slope with the corner's
    /// incidence slope and reflect the vertical speed, the horizontal
    /// speed, or both, as [`corner_ball`] states.  `Ok` reports that a
    /// corner case fired; a miss changes nothing.
    fn corner_collision(&self, ball: &mut Ball) -> (r: Result<(), ()>)
        requires
            player_coords_ok(self@),
            ball_coords_ok(old(ball)@),
            old(ball).x_speed != 0,
        ensures
            r is Ok <==> corner_ratios(self@, old(ball)@) is Some,
            final(ball)@ == if corner_ratios(self@, old(ball)@) is Some {
                corner_ball(self@, old(ball)@)
            } else {
                old(ball)@
            },
    {
        let down_side: bool = self.y1 + self.height > ball.y && self.y1 + self.height < ball.y
            + ball.r;
        let up_side: bool = self.y1 < ball.y + ball.r && self.y1 > ball.y;

        match self.side {
            Side::Left => {
                if self.x1 + self.width > ball.x && self.x1 < ball.x && down_side {
                    let c = ratio_cmp(
                        -ball.y_speed,
                        -ball.x_speed,
                        self.y1 + self.height - ball.y,
                        self.x1 + self.width - ball.x,
                    );
                    if c > 0 {
                        ball.y_speed = -ball.y_speed;
                    }
                    if c < 0 {
                        ball.x_speed = -ball.x_speed;
                    }
                    if c == 0 {
                        ball.x_speed = -ball.x_speed;
                        ball.y_speed = -ball.y_speed;
                    }
                    return Ok(());
                }
                if self.x1 + self.width > ball.x && self.x1 < ball.x && up_side {
                    let c = ratio_cmp(
                        ball.y_speed,
                        -ball.x_speed,
                        ball.y + ball.r - self.y1,
                        self.x1 + self.width - ball.x,
                    );
                    if c > 0 {
                        ball.y_speed = -ball.y_speed;
                    }
                    if c < 0 {
                        ball.x_speed = -ball.x_speed;
                    }
                    if c == 0 {
                        ball.x_speed = -ball.x_speed;
                        ball.y_speed = -ball.y_speed;
                    }
                    return Ok(());
                }
                Err(())
            },
            Side::Right => {
                if self.x1 < ball.x + ball.r && self.x1 + self.width > ball.x + ball.r
                    && down_side {
                    let c = ratio_cmp(
                        -ball.y_speed,
                        ball.x_speed,
                        self.y1 + self.height - ball.y,
                        ball.x + ball.r - self.x1,
                    );
                    if c > 0 {
                        ball.y_speed = -ball.y_speed;
                    }
                    if c < 0 {
                        ball.x_speed = -ball.x_speed;
                    }
                    if c == 0 {
                        ball.x_speed = -ball.x_speed;
                        ball.y_speed = -ball.y_speed;
                    }
                    return Ok(());
                }
                if self.x1 < ball.x + ball.r && up_side {
                    let c = ratio_cmp(
                        ball.y_speed,
                        ball.x_speed,
                        ball.x + ball.r - self.y1,
                        ball.x + ball.r - self.x1,
                    );
                    if c > 0 {
                        ball.y_speed = -ball.y_speed;
                    }
                    if c < 0 {
                        ball.x_speed = -ball.x_speed;
                    }
                    if c == 0 {
                        ball.x_speed = -ball.x_speed;
                        ball.y_speed = -ball.y_speed;
                    }
                    return Ok(());
                }
                Err(())
            },
            _ => Err(()),
        }
    }

    /// Resolve this paddle against the ball: corner resolution first, and
    /// only if no corner case fired, the direct edge check.  `Ok` reports
    /// that either path hit; on a miss the ball is untouched.
    pub fn collision(&self, ball: &mut Ball) -> (r: Result<(), ()>)
        requires
            player_coords_ok(self@),
            ball_coords_ok(old(ball)@),
            old(ball).x_speed != 0,
        ensures
            r is Ok <==> hits(self@, old(ball)@),
            final(ball)@ == collided_ball(self@, old(ball)@),
    {
        let corn_res = self.corner_collision(ball);
        let mut dir_res: Result<(), ()> = Err(());
        match corn_res {
            Ok(()) => (),
            Err(()) => {
                dir_res = self.direct_collision(ball);
            },
        }
        if dir_res.is_ok() || corn_res.is_ok() {
            return Ok(());
        }
        Err(())
    }

    /// Bot tracking: a bot paddle chases the ball's current vertical
    /// direction at three quarters of the ball's vertical speed, clamped
    /// at the window edges; a manual paddle is left alone.
    pub fn bot_move(&mut self, ball: &Ball, window_y: i64)
        requires
            coord_ok(old(self).y1 as int),
            0 <= old(self).height <= COORD_MAX,
            coord_ok(ball.y_speed as int),
            coord_ok(window_y as int),
        ensures
            final(self).y1 == bot_moved(old(self)@, ball@, window_y as int),
            final(self).x1 == old(self).x1,
            final(self).width == old(self).width,
            final(self).height == old(self).height,
            final(self)@.side == old(self)@.side,
            final(self).bot == old(self).bot,
    {
        let magnitude: i64 = if ball.y_speed >= 0 {
            ball.y_speed
        } else {
            -ball.y_speed
        };
        let speed: i64 = magnitude * 3 / 4;
        if self.bot {
            if ball.y_speed >= 0 {
                self.move_down(speed, window_y);
            } else {
                self.move_up(speed);
            }
        }
    }
}

} // verus!
