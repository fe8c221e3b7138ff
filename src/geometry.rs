//! Points, extents and axis-aligned rectangles on the integer plane.
use vstd::prelude::*;
use crate::constants::MAX_COORD;

verus! {

/// Absolute value.
pub open spec fn abs(v: int) -> int {
    if v < 0 { -v } else { v }
}

/// `v` limited to the closed range `[lo, hi]`.
pub open spec fn clamp(v: int, lo: int, hi: int) -> int {
    if v < lo { lo } else if v > hi { hi } else { v }
}

/// A pair of integer coordinates: a point, an extent or a velocity.
#[derive(Clone, Copy, Debug, PartialEq, Eq, Structural)]
pub struct Vec2 {
    pub x: i64,
    pub y: i64,
}

impl Vec2 {
    /// Both coordinates lie within the playable coordinate range.
    pub open spec fn is_position(self) -> bool {
        abs(self.x as int) <= MAX_COORD && abs(self.y as int) <= MAX_COORD
    }

    pub fn new(x: i64, y: i64) -> (r: Vec2)
        ensures
            r.x == x,
            r.y == y,
    {
        Vec2 { x, y }
    }

    pub fn zero() -> (r: Vec2)
        ensures
            r.x == 0,
            r.y == 0,
    {
        Vec2 { x: 0, y: 0 }
    }
}

/// `v` limited to the playable coordinate range.
pub fn clamp_coord(v: i64) -> (r: i64)
    ensures
        r == clamp(v as int, -MAX_COORD, MAX_COORD as int),
{
    if v < -MAX_COORD {
        -MAX_COORD
    } else if v > MAX_COORD {
        MAX_COORD
    } else {
        v
    }
}

/// An axis-aligned rectangle: `translation` is its centre and `scale` its
/// width and height.
#[derive(Clone, Copy, Debug, PartialEq, Eq, Structural)]
pub struct Transform {
    pub translation: Vec2,
    pub scale: Vec2,
}

impl Transform {
    /// The centre lies in the coordinate range and both extents are positive
    /// and no larger than that range.
    pub open spec fn wf(self) -> bool {
        &&& self.translation.is_position()
        &&& 0 < self.scale.x <= MAX_COORD
        &&& 0 < self.scale.y <= MAX_COORD
    }

    /// Builds a rectangle, refusing a centre out of range and a size that is
    /// not positive or too large.
    pub fn new(translation: Vec2, scale: Vec2) -> (r: Option<Transform>)
        ensures
            r is Some <==> (Transform { translation, scale }).wf(),
            r is Some ==> r->0 == (Transform { translation, scale }),
    {
        let t = Transform { translation, scale };
        if -MAX_COORD <= translation.x && translation.x <= MAX_COORD && -MAX_COORD <= translation.y
            && translation.y <= MAX_COORD && 0 < scale.x && scale.x <= MAX_COORD && 0 < scale.y
            && scale.y <= MAX_COORD {
            Some(t)
        } else {
            None
        }
    }

    /// The rectangle moved by `d`, each coordinate of its centre limited to the
    /// coordinate range.
    pub open spec fn spec_moved_by(self, d: Vec2) -> Transform {
        Transform {
            translation: Vec2 {
                x: clamp(self.translation.x + d.x, -MAX_COORD, MAX_COORD as int) as i64,
                y: clamp(self.translation.y + d.y, -MAX_COORD, MAX_COORD as int) as i64,
            },
            scale: self.scale,
        }
    }

    pub fn moved_by(&self, d: Vec2) -> (r: Transform)
        requires
            self.wf(),
            d.is_position(),
        ensures
            r == self.spec_moved_by(d),
            r.wf(),
    {
        Transform {
            translation: Vec2 {
                x: clamp_coord(self.translation.x + d.x),
                y: clamp_coord(self.translation.y + d.y),
            },
            scale: self.scale,
        }
    }

    /// The same rectangle centred at `p`.
    pub fn at(&self, p: Vec2) -> (r: Transform)
        ensures
            r.translation == p,
            r.scale == self.scale,
    {
        Transform { translation: p, scale: self.scale }
    }
}

} // verus!
