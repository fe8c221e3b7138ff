//! Configuration of the playfield and of the simulation.
use vstd::prelude::*;

verus! {

/// How many length units make one world unit.
pub const UNITS_PER_WORLD_UNIT: i64 = 1000;

/// The largest distance from the origin, on either axis, that a position may
/// have, and the largest width or height of a rectangle.
pub const MAX_COORD: i64 = 1_000_000_000_000;

/// The largest speed, on either axis, that a velocity may have.
pub const MAX_SPEED: i64 = 1_000_000_000_000;

/// Number of fixed simulation ticks per second.
pub const TICKS_PER_SECOND: i64 = 60;

/// Offsets shorter than this between a body's centre and the closest point of
/// another body count as "inside" that body (0.01 world units).
pub const INSIDE_EPSILON: i64 = 10;

/// Horizontal starting position of the left paddle.
pub const LEFT_PADDLE_START_X: i64 = -100_000;
/// Horizontal starting position of the right paddle.
pub const RIGHT_PADDLE_START_X: i64 = 100_000;
/// Vertical starting position of both paddles.
pub const PADDLE_START_Y: i64 = 0;

/// Retained share of a paddle's velocity per tick, in thousandths.
pub const PADDLE_DEFAULT_FRICTION: u64 = 1000;

/// Speed of a paddle along each pressed direction.
pub const PADDLE_SPEED_MULTIPLIER: i64 = 40_000;
/// Width of a paddle.
pub const PADDLE_WIDTH: i64 = 20_000;
/// Height of a paddle.
pub const PADDLE_HEIGHT: i64 = 100_000;

/// Most directions that one paddle's input may hold in a tick: more could
/// push its speed past `MAX_SPEED`.
pub const MAX_PRESSED_DIRECTIONS: usize = 25_000_000;

/// Width of the lane that holds a paddle.
pub const LANE_WIDTH: i64 = 100_000;
/// Height of the lane that holds a paddle: the space between the walls.
pub const LANE_HEIGHT: i64 = 475_000;

/// The number of points a player must score to win a game.
pub const WIN_SCORE: u64 = 5;

/// Width of the top and bottom walls.
pub const WALL_WIDTH: i64 = 500_000;
/// Height of the top and bottom walls.
pub const WALL_HEIGHT: i64 = 25_000;
/// Vertical position of the top wall; the bottom wall mirrors it.
pub const TOP_WALL_Y: i64 = 250_000;

/// Width of a score zone.
pub const SCORE_ZONE_WIDTH: i64 = 25_000;
/// Height of a score zone.
pub const SCORE_ZONE_HEIGHT: i64 = 500_000;
/// Horizontal distance of each score zone from the centre line.
pub const SCORE_ZONE_X: i64 = 250_000;

/// Speed of a freshly served ball before it is limited per axis.
pub const DEFAULT_BALL_SPEED: i64 = 50_000;
/// Least speed of a freshly served ball along each axis.
pub const BALL_MIN_AXIS_SPEED: i64 = 25_000;
/// Greatest speed of a freshly served ball along each axis.
pub const BALL_MAX_AXIS_SPEED: i64 = 100_000;
/// Horizontal starting position of the ball.
pub const BALL_START_X: i64 = 0;
/// Vertical starting position of the ball.
pub const BALL_START_Y: i64 = 0;
/// Width and height of the ball.
pub const BALL_SIZE: i64 = 15_000;

/// How hard a shake is by default (25 world units).
pub const DEFAULT_SHAKE_INTENSITY: u64 = 25_000;
/// How long a shake lasts by default, in milliseconds.
pub const DEFAULT_SHAKE_DURATION_MS: u64 = 500;
/// Shortest shake that a collision starts, in milliseconds.
pub const MIN_COLLISION_SHAKE_MS: u64 = 200;

} // verus!
