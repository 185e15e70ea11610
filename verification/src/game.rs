//! The score pair and the round controller.

use vstd::prelude::*;

use crate::ball::{
    ball_step, exit_of, ramped, Ball, BallModel, BALL_RADIUS, INIT_X_SPEED, MAX_INIT_Y_SPEED,
};
use crate::players::{
    bot_moved, collided_ball, hits, moved_down, moved_up, Player, PlayerModel, COORD_MAX,
    PADDLE_HEIGHT, PADDLE_WIDTH,
};
use crate::side::Side;

verus! {

/// The mathematical value of a [`Score`]: both counters as unbounded
/// integers.
pub ghost struct ScoreModel {
    pub p1: int,
    pub p2: int,
}

/// The match score: `p1` counts the left player's points, `p2` the right
/// player's.  Both counters only ever grow, one point at a time.
pub struct Score {
    pub p1: i32,
    pub p2: i32,
}

impl View for Score {
    type V = ScoreModel;

    open spec fn view(&self) -> ScoreModel {
        ScoreModel { p1: self.p1 as int, p2: self.p2 as int }
    }
}

/// The score after one scoring event: `Left` awards the left player,
/// `Right` the right player, and any other tag changes nothing.
pub open spec fn scored(s: ScoreModel, side: Side) -> ScoreModel {
    match side {
        Side::Left => ScoreModel { p1: s.p1 + 1, p2: s.p2 },
        Side::Right => ScoreModel { p1: s.p1, p2: s.p2 + 1 },
        _ => s,
    }
}

/// One scoring event moves the score monotonically: neither counter ever
/// drops, exactly one counter grows — by exactly one — when a scoring side
/// is passed, and no counter moves otherwise.
pub proof fn lemma_scored_monotone(s: ScoreModel, side: Side)
    ensures
        scored(s, side).p1 >= s.p1,
        scored(s, side).p2 >= s.p2,
        scored(s, side).p1 + scored(s, side).p2 <= s.p1 + s.p2 + 1,
        side == Side::Left ==> scored(s, side) == (ScoreModel { p1: s.p1 + 1, p2: s.p2 }),
        side == Side::Right ==> scored(s, side) == (ScoreModel { p1: s.p1, p2: s.p2 + 1 }),
        side != Side::Left && side != Side::Right ==> scored(s, side) == s,
{
}

impl Score {
    /// A fresh score: nobody has a point yet.
    pub fn new() -> (s: Score)
        ensures
            s.p1 == 0,
            s.p2 == 0,
    {
        Score { p1: 0, p2: 0 }
    }

    /// Record one scoring event for the given side.
    pub fn add_score(&mut self, side: Side)
        requires
            old(self).p1 < i32::MAX,
            old(self).p2 < i32::MAX,
        ensures
            final(self)@ == scored(old(self)@, side),
    {
        match side {
            Side::Left => self.p1 = self.p1 + 1,
            Side::Right => self.p2 = self.p2 + 1,
            _ => (),
        }
    }
}

/// Vertical step both human-controlled paddles take per pressed key, in
/// thousandths of a unit per tick (4 screen units).
pub const PLAYER_SPEED: i64 = 4_000;

/// Bound on every coordinate and speed a [`MyGame`] holds when a tick
/// starts, chosen so that one tick of motion stays within the collision
/// routines' own [`COORD_MAX`] bound.
pub const STATE_MAX: i64 = 1_000_000_000_000_000;

/// The currently pressed movement keys, read once per tick: one up/down
/// pair per player.
#[derive(Clone, Copy, Debug, PartialEq, Eq, Structural)]
pub struct Input {
    pub p1_up: bool,
    pub p1_down: bool,
    pub p2_up: bool,
    pub p2_down: bool,
}

/// The mathematical value of a [`MyGame`]: both paddles, the ball, the
/// score, and the collision turn marker.
pub ghost struct GameModel {
    pub player1: PlayerModel,
    pub player2: PlayerModel,
    pub ball: BallModel,
    pub score: ScoreModel,
    pub expected_collision: Side,
}

/// The round controller: owns the two paddles, the ball and the score,
/// and advances them one frame per [`MyGame::tick`] call.
/// `expected_collision` is the turn marker of the collision state
/// machine: `Left` and `Right` name the single paddle to test next, and
/// any other tag (the round-start value `Up`) means both paddles are
/// tested in the same tick.
pub struct MyGame {
    pub player1: Player,
    pub player2: Player,
    pub ball: Ball,
    pub score: Score,
    pub expected_collision: Side,
}

impl View for MyGame {
    type V = GameModel;

    open spec fn view(&self) -> GameModel {
        GameModel {
            player1: self.player1@,
            player2: self.player2@,
            ball: self.ball@,
            score: self.score@,
            expected_collision: self.expected_collision,
        }
    }
}

/// A freshly constructed paddle for one side of the window: flush against
/// its edge and vertically centred, as [`Player::new`] builds it.
pub open spec fn fresh_player(side: Side, window_w: int, window_h: int, bot: bool) -> PlayerModel {
    PlayerModel {
        x1: if side == Side::Left {
            0
        } else {
            window_w - PADDLE_WIDTH
        },
        y1: window_h / 2 - PADDLE_HEIGHT / 2,
        width: PADDLE_WIDTH as int,
        height: PADDLE_HEIGHT as int,
        side,
        bot,
    }
}

/// The same paddle at a new vertical position.
pub open spec fn with_y1(p: PlayerModel, y1: int) -> PlayerModel {
    PlayerModel { y1, ..p }
}

/// The vertical position of one paddle after the input phase: an up key
/// and then a down key, each honoured independently and only for a
/// human-controlled (non-bot) paddle.
pub open spec fn input_moved(p: PlayerModel, up: bool, down: bool, window_h: int) -> int {
    let y_up = if up && !p.bot {
        moved_up(p.y1, PLAYER_SPEED as int)
    } else {
        p.y1
    };
    if down && !p.bot {
        moved_down(y_up, p.height, PLAYER_SPEED as int, window_h)
    } else {
        y_up
    }
}

/// The collision phase: the turn marker picks which paddle is tested.
/// `Left` or `Right` test that paddle alone, and a hit passes the turn to
/// the other side; any other marker tests the left paddle and then the
/// right against the once-updated ball, the last hit taking the turn.
/// Yields the ball afterwards and the new marker.
pub open spec fn collision_phase(
    p1: PlayerModel,
    p2: PlayerModel,
    b: BallModel,
    expected: Side,
) -> (BallModel, Side) {
    match expected {
        Side::Left => (
            collided_ball(p1, b),
            if hits(p1, b) {
                Side::Right
            } else {
                expected
            },
        ),
        Side::Right => (
            collided_ball(p2, b),
            if hits(p2, b) {
                Side::Left
            } else {
                expected
            },
        ),
        _ => {
            let b1 = collided_ball(p1, b);
            (
                collided_ball(p2, b1),
                if hits(p2, b1) {
                    Side::Left
                } else if hits(p1, b) {
                    Side::Right
                } else {
                    expected
                },
            )
        },
    }
}

/// One full tick on which the ball signals no exit: input movement, ball
/// motion, the collision phase, bot movement for both paddles, and the
/// speed ramp, in exactly that order.  The score is untouched.
pub open spec fn ticked(g: GameModel, input: Input, window_w: int, window_h: int) -> GameModel {
    let p1a = with_y1(g.player1, input_moved(g.player1, input.p1_up, input.p1_down, window_h));
    let p2a = with_y1(g.player2, input_moved(g.player2, input.p2_up, input.p2_down, window_h));
    let b1 = ball_step(g.ball, window_w, window_h);
    let after = collision_phase(p1a, p2a, b1, g.expected_collision);
    let b2 = after.0;
    let p1b = with_y1(p1a, bot_moved(p1a, b2, window_h));
    let p2b = with_y1(p2a, bot_moved(p2a, b2, window_h));
    GameModel {
        player1: p1b,
        player2: p2b,
        ball: BallModel { x_speed: ramped(b2.x_speed), ..b2 },
        score: g.score,
        expected_collision: after.1,
    }
}

/// Whether one quantity is within the start-of-tick bound.
pub open spec fn state_ok(v: int) -> bool {
    -STATE_MAX <= v <= STATE_MAX
}

/// Everything [`MyGame::tick`] needs of the game state and the window:
/// the window holds a paddle, every coordinate and speed is within
/// [`STATE_MAX`], the ball has a non-negative size and is moving
/// horizontally, and a scoring event cannot overflow its counter.
pub open spec fn tick_pre(g: GameModel, window_w: int, window_h: int) -> bool {
    &&& PADDLE_WIDTH <= window_w <= STATE_MAX
    &&& PADDLE_HEIGHT <= window_h <= STATE_MAX
    &&& state_ok(g.ball.x)
    &&& state_ok(g.ball.y)
    &&& 0 <= g.ball.r <= STATE_MAX
    &&& state_ok(g.ball.x_speed)
    &&& state_ok(g.ball.y_speed)
    &&& g.ball.x_speed != 0
    &&& state_ok(g.player1.x1)
    &&& state_ok(g.player1.y1)
    &&& 0 <= g.player1.width <= STATE_MAX
    &&& 0 <= g.player1.height <= STATE_MAX
    &&& state_ok(g.player2.x1)
    &&& state_ok(g.player2.y1)
    &&& 0 <= g.player2.width <= STATE_MAX
    &&& 0 <= g.player2.height <= STATE_MAX
    &&& (exit_of(g.ball, window_w) is Ok ==> g.score.p1 < i32::MAX && g.score.p2 < i32::MAX)
}

impl MyGame {
    /// A fresh match in the given window: a bot paddle on the left, a
    /// human paddle on the right, a fresh centred ball, a zero score, and
    /// the collision state machine in its round-start state.
    pub fn new(window_size: (i64, i64)) -> (g: MyGame)
        requires
            PADDLE_WIDTH <= window_size.0,
            PADDLE_HEIGHT <= window_size.1,
        ensures
            g@.player1 == fresh_player(Side::Left, window_size.0 as int, window_size.1 as int, true),
            g@.player2 == fresh_player(
                Side::Right,
                window_size.0 as int,
                window_size.1 as int,
                false,
            ),
            g.ball.r == BALL_RADIUS,
            g.ball.x == (window_size.0 - BALL_RADIUS) / 2,
            g.ball.y == (window_size.1 - BALL_RADIUS) / 2,
            g.ball.x_speed == INIT_X_SPEED || g.ball.x_speed == -INIT_X_SPEED,
            -MAX_INIT_Y_SPEED <= g.ball.y_speed < MAX_INIT_Y_SPEED,
            g.score.p1 == 0 && g.score.p2 == 0,
            g.expected_collision == Side::Up,
    {
        MyGame {
            player1: Player::new(Side::Left, window_size, true).unwrap(),
            player2: Player::new(Side::Right, window_size, false).unwrap(),
            ball: Ball::new(window_size),
            score: Score::new(),
            expected_collision: Side::Up,
        }
    }

    /// Start the next round: both paddles and the ball are rebuilt from
    /// scratch and the collision state machine returns to its round-start
    /// state; the score survives.
    pub fn next_round(&mut self, window_size: (i64, i64))
        requires
            PADDLE_WIDTH <= window_size.0,
            PADDLE_HEIGHT <= window_size.1,
        ensures
            final(self)@.player1 == fresh_player(
                Side::Left,
                window_size.0 as int,
                window_size.1 as int,
                true,
            ),
            final(self)@.player2 == fresh_player(
                Side::Right,
                window_size.0 as int,
                window_size.1 as int,
                false,
            ),
            final(self).ball.r == BALL_RADIUS,
            final(self).ball.x == (window_size.0 - BALL_RADIUS) / 2,
            final(self).ball.y == (window_size.1 - BALL_RADIUS) / 2,
            final(self).ball.x_speed == INIT_X_SPEED || final(self).ball.x_speed == -INIT_X_SPEED,
            -MAX_INIT_Y_SPEED <= final(self).ball.y_speed < MAX_INIT_Y_SPEED,
            final(self)@.score == old(self)@.score,
            final(self).expected_collision == Side::Up,
    {
        self.player1 = Player::new(Side::Left, window_size, true).unwrap();
        self.player2 = Player::new(Side::Right, window_size, false).unwrap();
        self.ball = Ball::new(window_size);
        self.expected_collision = Side::Up;
    }

    /// Whether [`MyGame::tick`] may run on this state and window.
    pub fn can_tick(&self, window_size: (i64, i64)) -> (b: bool)
        ensures
            b == tick_pre(self@, window_size.0 as int, window_size.1 as int),
    {
        PADDLE_WIDTH <= window_size.0 && window_size.0 <= STATE_MAX && PADDLE_HEIGHT
            <= window_size.1 && window_size.1 <= STATE_MAX && -STATE_MAX <= self.ball.x
            && self.ball.x <= STATE_MAX && -STATE_MAX <= self.ball.y && self.ball.y <= STATE_MAX
            && 0 <= self.ball.r && self.ball.r <= STATE_MAX && -STATE_MAX <= self.ball.x_speed
            && self.ball.x_speed <= STATE_MAX && -STATE_MAX <= self.ball.y_speed
            && self.ball.y_speed <= STATE_MAX && self.ball.x_speed != 0 && -STATE_MAX
            <= self.player1.x1 && self.player1.x1 <= STATE_MAX && -STATE_MAX <= self.player1.y1
            && self.player1.y1 <= STATE_MAX && 0 <= self.player1.width && self.player1.width
            <= STATE_MAX && 0 <= self.player1.height && self.player1.height <= STATE_MAX
            && -STATE_MAX <= self.player2.x1 && self.player2.x1 <= STATE_MAX && -STATE_MAX
            <= self.player2.y1 && self.player2.y1 <= STATE_MAX && 0 <= self.player2.width
            && self.player2.width <= STATE_MAX && 0 <= self.player2.height && self.player2.height
            <= STATE_MAX && (!(self.ball.x + self.ball.r < 0 || self.ball.x > window_size.0) || (
            self.score.p1 < i32::MAX && self.score.p2 < i32::MAX))
    }

    /// Advance the simulation by one frame: apply the pressed keys to the
    /// human paddles, move the ball, and then either — on an exit signal —
    /// award the point and reset the round, or run the collision phase and
    /// the bot movement.  The speed ramp fires every tick, on the fresh
    /// ball too.
    #[verifier::rlimit(100)]
    #[verifier::spinoff_prover]
    pub fn tick(&mut self, window_size: (i64, i64), input: Input)
        requires
            tick_pre(old(self)@, window_size.0 as int, window_size.1 as int),
        ensures
            exit_of(old(self)@.ball, window_size.0 as int) matches Ok(side) ==> {
                &&& final(self)@.score == scored(old(self)@.score, side)
                &&& final(self)@.player1 == fresh_player(
                    Side::Left,
                    window_size.0 as int,
                    window_size.1 as int,
                    true,
                )
                &&& final(self)@.player2 == fresh_player(
                    Side::Right,
                    window_size.0 as int,
                    window_size.1 as int,
                    false,
                )
                &&& final(self).ball.r == BALL_RADIUS
                &&& final(self).ball.x == (window_size.0 - BALL_RADIUS) / 2
                &&& final(self).ball.y == (window_size.1 - BALL_RADIUS) / 2
                &&& (final(self)@.ball.x_speed == ramped(INIT_X_SPEED as int)
                    || final(self)@.ball.x_speed == ramped(-INIT_X_SPEED as int))
                &&& -MAX_INIT_Y_SPEED <= final(self).ball.y_speed < MAX_INIT_Y_SPEED
                &&& final(self).expected_collision == Side::Up
            },
            exit_of(old(self)@.ball, window_size.0 as int) is Err ==> final(self)@ == ticked(
                old(self)@,
                input,
                window_size.0 as int,
                window_size.1 as int,
            ),
            final(self)@.score.p1 >= old(self)@.score.p1,
            final(self)@.score.p2 >= old(self)@.score.p2,
    {
        if input.p1_up && !self.player1.bot {
            self.player1.y_move(Side::Up, PLAYER_SPEED, window_size.1);
        }
        if input.p1_down && !self.player1.bot {
            self.player1.y_move(Side::Down, PLAYER_SPEED, window_size.1);
        }
        if input.p2_up && !self.player2.bot {
            self.player2.y_move(Side::Up, PLAYER_SPEED, window_size.1);
        }
        if input.p2_down && !self.player2.bot {
            self.player2.y_move(Side::Down, PLAYER_SPEED, window_size.1);
        }
        let ghost g = old(self)@;
        let ghost w = window_size.0 as int;
        let ghost h = window_size.1 as int;
        let ghost p1a = with_y1(g.player1, input_moved(g.player1, input.p1_up, input.p1_down, h));
        let ghost p2a = with_y1(g.player2, input_moved(g.player2, input.p2_up, input.p2_down, h));
        assert(self.player1@ == p1a);
        assert(self.player2@ == p2a);

        let result = self.ball.update(window_size);
        proof {
            assert(self.ball@ == ball_step(g.ball, w, h));
            assert(result == exit_of(g.ball, w));
        }
        match result {
            Ok(side) => {
                self.score.add_score(side);
                self.next_round(window_size);
            },
            Err(()) => {
                let ghost b1 = ball_step(g.ball, w, h);
                match self.expected_collision {
                    Side::Left => {
                        if self.player1.collision(&mut self.ball).is_ok() {
                            self.expected_collision = Side::Right;
                        }
                    },
                    Side::Right => {
                        if self.player2.collision(&mut self.ball).is_ok() {
                            self.expected_collision = Side::Left;
                        }
                    },
                    _ => {
                        if self.player1.collision(&mut self.ball).is_ok() {
                            self.expected_collision = Side::Right;
                        }
                        if self.player2.collision(&mut self.ball).is_ok() {
                            self.expected_collision = Side::Left;
                        }
                    },
                }
                proof {
                    assert(self.ball@ == collision_phase(p1a, p2a, b1, g.expected_collision).0);
                    assert(self.expected_collision == collision_phase(
                        p1a,
                        p2a,
                        b1,
                        g.expected_collision,
                    ).1);
                }
                self.player1.bot_move(&self.ball, window_size.1);
                self.player2.bot_move(&self.ball, window_size.1);
                proof {
                    let b2 = collision_phase(p1a, p2a, b1, g.expected_collision).0;
                    assert(self.player1@ == with_y1(p1a, bot_moved(p1a, b2, h)));
                    assert(self.player2@ == with_y1(p2a, bot_moved(p2a, b2, h)));
                }
            },
        }

        self.ball.speed_ramp();
    }
}

} // verus!
