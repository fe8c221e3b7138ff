//! Bodies that take part in collisions, the events a hit produces, and how a
//! hit reflects a velocity.
use vstd::prelude::*;
use crate::collision::Collision;
use crate::constants::{MAX_SPEED, UNITS_PER_WORLD_UNIT};
use crate::geometry::{abs, Transform, Vec2};
use crate::velocity::Velocity;

verus! {

/// A body that the ball can hit: where it is, and how it moves if it moves.
/// A collider without a velocity is stationary.
#[derive(Clone, Copy, Debug, PartialEq, Eq, Structural)]
pub struct Collider {
    pub transform: Transform,
    pub velocity: Option<Velocity>,
}

impl Collider {
    pub open spec fn wf(self) -> bool {
        &&& self.transform.wf()
        &&& (self.velocity matches Some(v) ==> v.wf())
    }

    /// The collider's velocity, zero when it has none.
    pub open spec fn spec_velocity_or_zero(self) -> Velocity {
        match self.velocity {
            Some(v) => v,
            None => Velocity(Vec2 { x: 0, y: 0 }),
        }
    }
}

/// `r` is the square root of `n`, rounded down.
pub open spec fn is_floor_sqrt(n: int, r: int) -> bool {
    0 <= r && r * r <= n && n < (r + 1) * (r + 1)
}

/// The square root of `n`, rounded down.
pub open spec fn floor_sqrt(n: int) -> int {
    choose|r: int| is_floor_sqrt(n, r)
}

/// The rounded-down square root of a number is unique.
pub proof fn lemma_floor_sqrt_unique(n: int, r1: int, r2: int)
    requires
        is_floor_sqrt(n, r1),
        is_floor_sqrt(n, r2),
    ensures
        r1 == r2,
{
    if r1 < r2 {
        assert((r1 + 1) * (r1 + 1) <= r2 * r2) by (nonlinear_arith)
            requires 0 <= r1 + 1 <= r2;
    }
    if r2 < r1 {
        assert((r2 + 1) * (r2 + 1) <= r1 * r1) by (nonlinear_arith)
            requires 0 <= r2 + 1 <= r1;
    }
}

/// The square of the length of `a - b`.
pub open spec fn distance_sq(a: Vec2, b: Vec2) -> int {
    (a.x - b.x) * (a.x - b.x) + (a.y - b.y) * (a.y - b.y)
}

/// The magnitude of the relative velocity of two bodies, rounded down.
pub open spec fn spec_intensity(a: Velocity, b: Velocity) -> int {
    floor_sqrt(distance_sq(a.0, b.0))
}

/// Bound for the search below: its square exceeds every squared distance
/// between two velocities within the speed limit.
const SQRT_SEARCH_BOUND: u128 = 0x400_0000_0000;

fn floor_sqrt_u128(n: u128) -> (r: u64)
    requires
        n < SQRT_SEARCH_BOUND * SQRT_SEARCH_BOUND,
    ensures
        r == floor_sqrt(n as int),
{
    let mut lo: u128 = 0;
    let mut hi: u128 = SQRT_SEARCH_BOUND;
    while hi - lo > 1
        invariant
            lo < hi <= SQRT_SEARCH_BOUND,
            lo * lo <= n,
            n < hi * hi,
        decreases hi - lo,
    {
        let mid = lo + (hi - lo) / 2;
        assert(mid * mid <= SQRT_SEARCH_BOUND * SQRT_SEARCH_BOUND) by (nonlinear_arith)
            requires mid <= SQRT_SEARCH_BOUND;
        if mid * mid <= n {
            lo = mid;
        } else {
            hi = mid;
        }
    }
    proof {
        assert(is_floor_sqrt(n as int, lo as int));
        lemma_floor_sqrt_unique(n as int, lo as int, floor_sqrt(n as int));
    }
    lo as u64
}

/// Sent when the ball hits a collider.
#[derive(Clone, Copy, Debug, PartialEq, Eq, Structural)]
pub struct Event {
    /// The magnitude of the relative velocity of the two bodies.
    pub intensity: u64,
    /// The side of the collider that was hit.
    pub kind: Collision,
}

impl Event {
    pub open spec fn spec_new(kind: Collision, vel_a: Velocity, vel_b: Velocity) -> Event {
        Event { intensity: spec_intensity(vel_a, vel_b) as u64, kind }
    }

    /// An event whose intensity is the magnitude of `vel_a - vel_b`: bodies
    /// moving toward each other collide harder than bodies moving together.
    pub fn new(kind: Collision, vel_a: Velocity, vel_b: Velocity) -> (r: Event)
        requires
            vel_a.wf(),
            vel_b.wf(),
        ensures
            r == Event::spec_new(kind, vel_a, vel_b),
            r.intensity == spec_intensity(vel_a, vel_b),
    {
        let dx = vel_a.0.x - vel_b.0.x;
        let dy = vel_a.0.y - vel_b.0.y;
        let ax: u128 = if dx < 0 { (-dx) as u128 } else { dx as u128 };
        let ay: u128 = if dy < 0 { (-dy) as u128 } else { dy as u128 };
        proof {
            assert(ax * ax <= 2 * MAX_SPEED * (2 * MAX_SPEED)) by (nonlinear_arith)
                requires 0 <= ax <= 2 * MAX_SPEED;
            assert(ay * ay <= 2 * MAX_SPEED * (2 * MAX_SPEED)) by (nonlinear_arith)
                requires 0 <= ay <= 2 * MAX_SPEED;
            assert(ax * ax == dx * dx) by (nonlinear_arith)
                requires ax == abs(dx as int);
            assert(ay * ay == dy * dy) by (nonlinear_arith)
                requires ay == abs(dy as int);
        }
        let sq = ax * ax + ay * ay;
        let intensity = floor_sqrt_u128(sq);
        Event { intensity, kind }
    }

    /// Whether this hit is heard: every hit on a side is, a hit from inside
    /// is not.
    pub fn plays_sound(&self) -> (r: bool)
        ensures
            r == (self.kind != Collision::Inside),
    {
        !matches!(self.kind, Collision::Inside)
    }
}

impl Default for Event {
    /// A hit from inside of intensity one world unit per second.
    fn default() -> (r: Event)
        ensures
            r.intensity == UNITS_PER_WORLD_UNIT,
            r.kind == Collision::Inside,
    {
        Event { intensity: UNITS_PER_WORLD_UNIT as u64, kind: Collision::Inside }
    }
}

/// The velocity of a body after it hit side `kind` of another body: the
/// component across that side changes sign when the body moves into it, and
/// nothing else changes.
pub open spec fn spec_reflect(kind: Collision, v: Velocity) -> Velocity {
    match kind {
        Collision::Left => if v.0.x > 0 { Velocity(Vec2 { x: (-v.0.x) as i64, y: v.0.y }) } else { v },
        Collision::Right => if v.0.x < 0 { Velocity(Vec2 { x: (-v.0.x) as i64, y: v.0.y }) } else { v },
        Collision::Top => if v.0.y < 0 { Velocity(Vec2 { x: v.0.x, y: (-v.0.y) as i64 }) } else { v },
        Collision::Bottom => if v.0.y > 0 { Velocity(Vec2 { x: v.0.x, y: (-v.0.y) as i64 }) } else { v },
        Collision::Inside => v,
    }
}

/// Reflects `v` off side `kind`.
pub fn reflect(kind: Collision, v: Velocity) -> (r: Velocity)
    requires
        v.wf(),
    ensures
        r == spec_reflect(kind, v),
        r.wf(),
{
    let mut reflect_x = false;
    let mut reflect_y = false;
    match kind {
        Collision::Left => reflect_x = v.0.x > 0,
        Collision::Right => reflect_x = v.0.x < 0,
        Collision::Top => reflect_y = v.0.y < 0,
        Collision::Bottom => reflect_y = v.0.y > 0,
        Collision::Inside => {},
    }
    let mut r = v;
    if reflect_x {
        r.0.x = -r.0.x;
    }
    if reflect_y {
        r.0.y = -r.0.y;
    }
    r
}

/// Reflection off one side happens once: a body that hit side `kind` and was
/// reflected is not reflected again by a second hit on that side. A body
/// moving right that hits the left side of a wall has its horizontal
/// velocity negated and its vertical velocity unchanged.
pub proof fn lemma_reflect_once(kind: Collision, v: Velocity)
    requires
        v.wf(),
    ensures
        spec_reflect(kind, spec_reflect(kind, v)) == spec_reflect(kind, v),
        kind == Collision::Left && v.0.x > 0 ==> spec_reflect(kind, v).0.x == -v.0.x
            && spec_reflect(kind, v).0.y == v.0.y,
{
}

} // verus!
