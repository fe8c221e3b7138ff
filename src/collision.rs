//! Intersection of axis-aligned rectangles and the side on which one body
//! meets another.
use vstd::prelude::*;
use crate::constants::{INSIDE_EPSILON, MAX_COORD};
use crate::geometry::{abs, clamp, Transform};

verus! {

/// The side of a body that another body hit.
#[derive(Clone, Copy, Debug, PartialEq, Eq, Structural)]
pub enum Collision {
    Left,
    Right,
    Top,
    Bottom,
    /// The centre of the moving body lies (almost) within the other body: no
    /// side can be told.
    Inside,
}

/// The two rectangles share interior area. Rectangles that only touch along
/// an edge do not overlap.
pub open spec fn overlaps(a: Transform, b: Transform) -> bool {
    &&& 2 * abs(a.translation.x - b.translation.x) < a.scale.x + b.scale.x
    &&& 2 * abs(a.translation.y - b.translation.y) < a.scale.y + b.scale.y
}

/// Along one axis, twice the offset from the point of a rectangle (centre `c`,
/// extent `s`) closest to the coordinate `p`, to `p`.
pub open spec fn offset2(p: int, c: int, s: int) -> int {
    2 * p - clamp(2 * p, 2 * c - s, 2 * c + s)
}

/// The side of `b` that `a` touches: classified by the offset from the point
/// of `b` closest to the centre of `a`, to that centre.
pub open spec fn side_of(a: Transform, b: Transform) -> Collision {
    let dx = offset2(a.translation.x as int, b.translation.x as int, b.scale.x as int);
    let dy = offset2(a.translation.y as int, b.translation.y as int, b.scale.y as int);
    if dx * dx + dy * dy < 4 * INSIDE_EPSILON * INSIDE_EPSILON {
        Collision::Inside
    } else if abs(dx) > abs(dy) {
        if dx < 0 { Collision::Left } else { Collision::Right }
    } else if dy > 0 {
        Collision::Top
    } else {
        Collision::Bottom
    }
}

/// `None` when the rectangles do not overlap, else the side of `b` that `a` hit.
pub open spec fn spec_collide(a: Transform, b: Transform) -> Option<Collision> {
    if overlaps(a, b) { Some(side_of(a, b)) } else { None }
}

/// Every corner of `entity` lies within `bounds` (edges included).
pub open spec fn contains(bounds: Transform, entity: Transform) -> bool {
    &&& 2 * bounds.translation.x - bounds.scale.x <= 2 * entity.translation.x - entity.scale.x
    &&& 2 * entity.translation.x + entity.scale.x <= 2 * bounds.translation.x + bounds.scale.x
    &&& 2 * bounds.translation.y - bounds.scale.y <= 2 * entity.translation.y - entity.scale.y
    &&& 2 * entity.translation.y + entity.scale.y <= 2 * bounds.translation.y + bounds.scale.y
}

fn abs_i64(v: i64) -> (r: i64)
    requires
        v > i64::MIN,
    ensures
        r == abs(v as int),
{
    if v < 0 { -v } else { v }
}

/// Twice the offset, along one axis, from the point of a rectangle closest to
/// `p`, to `p`.
fn axis_offset2(p: i64, c: i64, s: i64) -> (r: i64)
    requires
        abs(p as int) <= MAX_COORD,
        abs(c as int) <= MAX_COORD,
        0 < s <= MAX_COORD,
    ensures
        r == offset2(p as int, c as int, s as int),
        abs(r as int) <= 5 * MAX_COORD,
{
    let p2 = 2 * p;
    let lo = 2 * c - s;
    let hi = 2 * c + s;
    let closest = if p2 < lo {
        lo
    } else if p2 > hi {
        hi
    } else {
        p2
    };
    p2 - closest
}

/// Tests `a` against `b`. Returns `None` when they do not overlap; otherwise
/// the side of `b` that `a` hit, or `Inside` when the centre of `a` lies
/// within `b` (up to `INSIDE_EPSILON`).
pub fn collide(a: Transform, b: Transform) -> (r: Option<Collision>)
    requires
        a.wf(),
        b.wf(),
    ensures
        r == spec_collide(a, b),
{
    let dcx = abs_i64(a.translation.x - b.translation.x);
    let dcy = abs_i64(a.translation.y - b.translation.y);
    if !(2 * dcx < a.scale.x + b.scale.x && 2 * dcy < a.scale.y + b.scale.y) {
        return None;
    }
    let dx = axis_offset2(a.translation.x, b.translation.x, b.scale.x);
    let dy = axis_offset2(a.translation.y, b.translation.y, b.scale.y);
    let adx = abs_i64(dx);
    let ady = abs_i64(dy);
    let e2 = 2 * INSIDE_EPSILON;
    let inside = if adx < e2 && ady < e2 {
        proof {
            assert(0 <= adx * adx < e2 * e2) by (nonlinear_arith)
                requires 0 <= adx < e2;
            assert(0 <= ady * ady < e2 * e2) by (nonlinear_arith)
                requires 0 <= ady < e2;
            assert(dx * dx == adx * adx) by (nonlinear_arith)
                requires adx == abs(dx as int);
            assert(dy * dy == ady * ady) by (nonlinear_arith)
                requires ady == abs(dy as int);
        }
        adx * adx + ady * ady < e2 * e2
    } else {
        proof {
            assert(dx * dx + dy * dy >= e2 * e2) by (nonlinear_arith)
                requires
                    adx == abs(dx as int),
                    ady == abs(dy as int),
                    adx >= e2 || ady >= e2,
                    e2 > 0;
        }
        false
    };
    let side = if inside {
        Collision::Inside
    } else if adx > ady {
        if dx < 0 { Collision::Left } else { Collision::Right }
    } else if dy > 0 {
        Collision::Top
    } else {
        Collision::Bottom
    };
    Some(side)
}

/// The entity and the bounds do not overlap at all.
pub fn is_outside_bounds(bounds: &Transform, entity: &Transform) -> (r: bool)
    requires
        bounds.wf(),
        entity.wf(),
    ensures
        r == !overlaps(*bounds, *entity),
{
    collide(*bounds, *entity).is_none()
}

/// The entity overlaps the bounds, if only in part.
pub fn is_inside_bounds(bounds: &Transform, entity: &Transform) -> (r: bool)
    requires
        bounds.wf(),
        entity.wf(),
    ensures
        r == overlaps(*bounds, *entity),
{
    !is_outside_bounds(bounds, entity)
}

/// The whole entity lies within the bounds: the stronger test that keeps a
/// paddle in its lane.
pub fn is_completely_inside_bounds(bounds: &Transform, entity: &Transform) -> (r: bool)
    requires
        bounds.wf(),
        entity.wf(),
    ensures
        r == contains(*bounds, *entity),
{
    2 * bounds.translation.x - bounds.scale.x <= 2 * entity.translation.x - entity.scale.x
        && 2 * entity.translation.x + entity.scale.x <= 2 * bounds.translation.x + bounds.scale.x
        && 2 * bounds.translation.y - bounds.scale.y <= 2 * entity.translation.y - entity.scale.y
        && 2 * entity.translation.y + entity.scale.y <= 2 * bounds.translation.y + bounds.scale.y
}

/// Side classification of two rectangles of the same size at the same
/// height: when their centres coincide the result is `Inside`; when they are
/// a full width or more apart they do not collide; when they overlap only at
/// the edges (the centre of `a` is outside `b` by at least `INSIDE_EPSILON`)
/// the side is `Left` when `a` is to the left of `b` and `Right` otherwise.
pub proof fn lemma_side_classification(a: Transform, b: Transform)
    requires
        a.wf(),
        b.wf(),
        a.scale == b.scale,
        a.translation.y == b.translation.y,
    ensures
        a.translation == b.translation ==> spec_collide(a, b) == Some(Collision::Inside),
        abs(b.translation.x - a.translation.x) >= a.scale.x ==> spec_collide(a, b) is None,
        a.scale.x + 2 * INSIDE_EPSILON <= 2 * abs(b.translation.x - a.translation.x) < 2
            * a.scale.x ==> spec_collide(a, b) == Some(
            if a.translation.x < b.translation.x {
                Collision::Left
            } else {
                Collision::Right
            },
        ),
{
    let dx = offset2(a.translation.x as int, b.translation.x as int, b.scale.x as int);
    let dy = offset2(a.translation.y as int, b.translation.y as int, b.scale.y as int);
    assert(dy == 0);
    if a.scale.x + 2 * INSIDE_EPSILON <= 2 * abs(b.translation.x - a.translation.x) {
        assert(abs(dx) >= 2 * INSIDE_EPSILON);
        assert(dx * dx >= 4 * INSIDE_EPSILON * INSIDE_EPSILON) by (nonlinear_arith)
            requires abs(dx) >= 2 * INSIDE_EPSILON, INSIDE_EPSILON > 0;
    }
}

} // verus!
