//! The ball, and the velocity it is served with.
use vstd::prelude::*;
use crate::constants::{
    BALL_MAX_AXIS_SPEED, BALL_MIN_AXIS_SPEED, BALL_SIZE, BALL_START_X, BALL_START_Y,
    DEFAULT_BALL_SPEED,
};
use crate::geometry::{clamp, Transform, Vec2};
use crate::velocity::Velocity;

verus! {

/// Relies on rand::random, here drawing a `u32` from the thread-local
/// generator; nothing is known of the value drawn.
pub assume_specification<T>[ rand::random::<T> ]() -> (r: T)
    where
        rand::distributions::Standard: rand::distributions::Distribution<T>,
;

/// The ball.
#[derive(Clone, Copy, Debug, PartialEq, Eq, Structural)]
pub struct Ball {
    pub transform: Transform,
    pub velocity: Velocity,
}

/// The ball's place and size when it is served.
pub open spec fn spec_ball_start() -> Transform {
    Transform {
        translation: Vec2 { x: BALL_START_X, y: BALL_START_Y },
        scale: Vec2 { x: BALL_SIZE, y: BALL_SIZE },
    }
}

/// The speed along one axis of a ball served with the random sample `s`:
/// the sample, read as a fraction `s / 2^32` of the range from minus to plus
/// the default speed, picks a signed speed uniformly; its magnitude is then
/// limited to the per-axis range and its sign kept (zero counts as positive).
pub open spec fn spec_axis_speed(s: u32) -> int {
    let raw = (s as int * (2 * DEFAULT_BALL_SPEED)) / 0x1_0000_0000 - DEFAULT_BALL_SPEED;
    if raw < 0 {
        -clamp(-raw, BALL_MIN_AXIS_SPEED as int, BALL_MAX_AXIS_SPEED as int)
    } else {
        clamp(raw, BALL_MIN_AXIS_SPEED as int, BALL_MAX_AXIS_SPEED as int)
    }
}

/// The velocity of a ball served with the random samples `sx` and `sy`.
pub open spec fn spec_serve_velocity(sx: u32, sy: u32) -> Velocity {
    Velocity(Vec2 { x: spec_axis_speed(sx) as i64, y: spec_axis_speed(sy) as i64 })
}

fn axis_speed(s: u32) -> (r: i64)
    ensures
        r == spec_axis_speed(s),
{
    assert(s as u64 * 100_000u64 <= 0x1_0000_0000u64 * 100_000u64) by (nonlinear_arith)
        requires s < 0x1_0000_0000u64;
    let raw = (s as u64 * (2 * DEFAULT_BALL_SPEED) as u64 / 0x1_0000_0000u64) as i64
        - DEFAULT_BALL_SPEED;
    let magnitude = if raw < 0 { -raw } else { raw };
    let limited = if magnitude < BALL_MIN_AXIS_SPEED {
        BALL_MIN_AXIS_SPEED
    } else if magnitude > BALL_MAX_AXIS_SPEED {
        BALL_MAX_AXIS_SPEED
    } else {
        magnitude
    };
    if raw < 0 { -limited } else { limited }
}

/// The velocity of a ball served with the samples `sx` and `sy`, each drawn
/// uniformly from the `u32` range.
pub fn serve_velocity(sx: u32, sy: u32) -> (r: Velocity)
    ensures
        r == spec_serve_velocity(sx, sy),
        r.wf(),
{
    Velocity(Vec2 { x: axis_speed(sx), y: axis_speed(sy) })
}

/// A velocity for a freshly served ball, from two random samples.
pub fn random_serve_velocity() -> (r: Velocity)
    ensures
        exists|sx: u32, sy: u32| r == spec_serve_velocity(sx, sy),
        r.wf(),
{
    let sx: u32 = rand::random::<u32>();
    let sy: u32 = rand::random::<u32>();
    serve_velocity(sx, sy)
}

impl Ball {
    pub open spec fn wf(self) -> bool {
        self.transform.wf() && self.velocity.wf()
    }

    /// A ball at the serving place, of the ball's size, with `velocity`.
    pub fn new(velocity: Velocity) -> (r: Ball)
        requires
            velocity.wf(),
        ensures
            r.transform == spec_ball_start(),
            r.velocity == velocity,
            r.wf(),
    {
        Ball {
            transform: Transform {
                translation: Vec2 { x: BALL_START_X, y: BALL_START_Y },
                scale: Vec2 { x: BALL_SIZE, y: BALL_SIZE },
            },
            velocity,
        }
    }

    /// Sets the velocity of the ball.
    pub fn with_velocity(self, velocity: Velocity) -> (r: Ball)
        requires
            self.wf(),
            velocity.wf(),
        ensures
            r == (Ball { velocity, ..self }),
            r.wf(),
    {
        Ball { velocity, ..self }
    }

    /// Sets the position of the ball.
    pub fn with_position(self, pos: Vec2) -> (r: Ball)
        requires
            self.wf(),
            pos.is_position(),
        ensures
            r == (Ball { transform: Transform { translation: pos, ..self.transform }, ..self }),
            r.wf(),
    {
        Ball { transform: self.transform.at(pos), ..self }
    }
}

impl Default for Ball {
    /// A ball at the serving place with a random serving velocity.
    fn default() -> (r: Ball)
        ensures
            r.transform == spec_ball_start(),
            exists|sx: u32, sy: u32| r.velocity == spec_serve_velocity(sx, sy),
            r.wf(),
    {
        Ball::new(random_serve_velocity())
    }
}

} // verus!
