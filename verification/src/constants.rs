//! The fixed dimensions of the arena and of the bodies in it.

use vstd::prelude::*;

verus! {

/// Length units in one world unit.
pub const UNIT: i64 = 1_000_000;

/// Time units in one second.
pub const SECOND: u64 = 1_000_000;

/// Vertical position of the centre of the top wall.
pub const TOP_WALL: i64 = 300_000_000;

/// Vertical position of the centre of the bottom wall.
pub const BTM_WALL: i64 = -300_000_000;

/// Horizontal position of the centre of the left wall.
pub const LEFT_WALL: i64 = -600_000_000;

/// Horizontal position of the centre of the right wall.
pub const RIGHT_WALL: i64 = 600_000_000;

/// Thickness of each wall.
pub const WALL_THICKNESS: i64 = 10_000_000;

/// Width of a paddle.
pub const PADDLE_WIDTH: i64 = 20_000_000;

/// Height of a paddle.
pub const PADDLE_HEIGHT: i64 = 120_000_000;

/// Diameter of the ball.
pub const BALL_DIAMETER: i64 = 5_000_000;

/// Radius of the ball.
pub const BALL_RADIUS: i64 = 2_500_000;

/// Free space kept between a paddle and the walls above and below it, and
/// between a paddle and the wall behind it.
pub const PADDLE_PADDING: i64 = 30_000_000;

/// Speed of a paddle, in world units per second.
pub const PADDLE_SPEED: u64 = 200;

/// Speed of the ball at the start of a game, in world units per second.
pub const BALL_SPEED: u64 = 250;

/// Horizontal component of the ball's first velocity: `BALL_SPEED` along the
/// falling diagonal, rounded to the nearest world unit per second.
pub const INITIAL_BALL_VELOCITY_X: i64 = 177;

/// Vertical component of the ball's first velocity.
pub const INITIAL_BALL_VELOCITY_Y: i64 = -177;

} // verus!
