//! The direction tag shared by the whole simulation.

use vstd::prelude::*;

verus! {

/// A direction or side of the screen.
///
/// The tag does triple duty, exactly as the rest of the crate expects it:
/// a paddle's fixed identity (`Left` or `Right`), a movement direction for
/// [`crate::players::Player::y_move`] (`Up` or `Down`), and the scoring
/// signal returned by [`crate::ball::Ball::update`] (`Left` or `Right`,
/// naming the player who takes the point).
#[derive(Clone, Copy, Debug, PartialEq, Eq, Structural)]
pub enum Side {
    Left,
    Right,
    Up,
    Down,
}

} // verus!
