//! Velocities, friction and the per-tick displacement they cause.
use vstd::prelude::*;
use crate::constants::{MAX_COORD, MAX_SPEED, TICKS_PER_SECOND};
use crate::geometry::{abs, Vec2};

verus! {

/// Division that rounds toward zero, as Rust's `/` does on integers.
pub open spec fn div_toward_zero(a: int, d: int) -> int {
    if a >= 0 { a / d } else { -((-a) / d) }
}

/// Change in position per second, in length units.
#[derive(Clone, Copy, Debug, PartialEq, Eq, Structural)]
pub struct Velocity(pub Vec2);

/// The share of its velocity that a body keeps from one tick to the next, in
/// thousandths: `1000` keeps all of it, `1` almost none.
#[derive(Clone, Copy, Debug, PartialEq, Eq, Structural)]
pub struct Friction(pub u64);

/// A friction factor lies in `(0, 1]`.
pub open spec fn friction_wf(f: Friction) -> bool {
    1 <= f.0 <= 1000
}

/// One velocity component after a tick of multiplicative friction `f`.
pub open spec fn spec_decay(v: int, f: int) -> int {
    div_toward_zero(v * f, 1000)
}

impl Velocity {
    /// Each component is within the speed limit.
    pub open spec fn wf(self) -> bool {
        abs(self.0.x as int) <= MAX_SPEED && abs(self.0.y as int) <= MAX_SPEED
    }

    /// The displacement over one tick: each component divided by the tick
    /// rate, rounded toward zero.
    pub open spec fn spec_tick_displacement(self) -> Vec2 {
        Vec2 {
            x: div_toward_zero(self.0.x as int, TICKS_PER_SECOND as int) as i64,
            y: div_toward_zero(self.0.y as int, TICKS_PER_SECOND as int) as i64,
        }
    }

    /// The velocity after one tick of friction `f`.
    pub open spec fn spec_apply_friction(self, f: Friction) -> Velocity {
        Velocity(
            Vec2 {
                x: spec_decay(self.0.x as int, f.0 as int) as i64,
                y: spec_decay(self.0.y as int, f.0 as int) as i64,
            },
        )
    }

    pub fn new(x: i64, y: i64) -> (r: Velocity)
        ensures
            r.0.x == x,
            r.0.y == y,
    {
        Velocity(Vec2 { x, y })
    }

    pub fn zero() -> (r: Velocity)
        ensures
            r.0.x == 0,
            r.0.y == 0,
    {
        Velocity(Vec2 { x: 0, y: 0 })
    }

    /// Moves the velocity toward zero: each component is multiplied by the
    /// friction factor and rounded toward zero, so friction never reverses a
    /// component nor makes it larger.
    pub fn apply_friction(&mut self, friction: Friction)
        requires
            old(self).wf(),
            friction_wf(friction),
        ensures
            *final(self) == old(self).spec_apply_friction(friction),
            final(self).0.x == spec_decay(old(self).0.x as int, friction.0 as int),
            final(self).0.y == spec_decay(old(self).0.y as int, friction.0 as int),
            final(self).wf(),
            abs(final(self).0.x as int) <= abs(old(self).0.x as int),
            abs(final(self).0.y as int) <= abs(old(self).0.y as int),
            old(self).0.x >= 0 ==> final(self).0.x >= 0,
            old(self).0.x <= 0 ==> final(self).0.x <= 0,
            old(self).0.y >= 0 ==> final(self).0.y >= 0,
            old(self).0.y <= 0 ==> final(self).0.y <= 0,
    {
        let x = decay(self.0.x, friction.0);
        let y = decay(self.0.y, friction.0);
        self.0 = Vec2 { x, y };
    }

    /// The position one step of this velocity away from `starting_from`,
    /// with no time scaling.
    pub fn new_position(&self, starting_from: Vec2) -> (r: Vec2)
        requires
            self.wf(),
            starting_from.is_position(),
        ensures
            r.x == starting_from.x + self.0.x,
            r.y == starting_from.y + self.0.y,
    {
        Vec2 { x: starting_from.x + self.0.x, y: starting_from.y + self.0.y }
    }

    /// The displacement over one tick.
    pub fn tick_displacement(&self) -> (r: Vec2)
        requires
            self.wf(),
        ensures
            r == self.spec_tick_displacement(),
            r.is_position(),
    {
        Vec2 { x: per_tick(self.0.x), y: per_tick(self.0.y) }
    }
}

fn decay(v: i64, f: u64) -> (r: i64)
    requires
        abs(v as int) <= MAX_SPEED,
        1 <= f <= 1000,
    ensures
        r == spec_decay(v as int, f as int),
        abs(r as int) <= abs(v as int),
        v >= 0 ==> r >= 0,
        v <= 0 ==> r <= 0,
{
    let fi = f as i64;
    if v >= 0 {
        assert(0 <= v * fi <= v * 1000) by (nonlinear_arith)
            requires 0 <= v, 1 <= fi <= 1000;
        let r = (v * fi) / 1000;
        assert(r <= v) by (nonlinear_arith)
            requires r == (v * fi) / 1000, 0 <= v * fi <= v * 1000;
        r
    } else {
        let m = -v;
        assert(0 < m * fi <= m * 1000) by (nonlinear_arith)
            requires 0 < m, 1 <= fi <= 1000;
        let q = (m * fi) / 1000;
        assert(q <= m) by (nonlinear_arith)
            requires q == (m * fi) / 1000, 0 <= m * fi <= m * 1000;
        assert(v * fi == -(m * fi)) by (nonlinear_arith)
            requires m == -v;
        -q
    }
}

fn per_tick(v: i64) -> (r: i64)
    requires
        abs(v as int) <= MAX_SPEED,
    ensures
        r == div_toward_zero(v as int, TICKS_PER_SECOND as int),
        abs(r as int) <= MAX_COORD,
{
    if v >= 0 {
        v / TICKS_PER_SECOND
    } else {
        -((-v) / TICKS_PER_SECOND)
    }
}

} // verus!
