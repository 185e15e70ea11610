//! Verified core of a two-paddle ball-bounce arcade simulation.
//!
//! The physics runs on fixed-point coordinates: every length, position and
//! speed is an `i64` counted in thousandths of a screen unit, so one tick of
//! ball motion, every bounce test and every collision comparison is exact
//! integer arithmetic with a proved contract.  The surrounding presentation
//! layer (window, input polling, drawing) is expected to call [`game::MyGame`]
//! once per frame and read the resulting rectangles back for rendering.

pub mod ball;
pub mod game;
pub mod players;
pub mod side;
