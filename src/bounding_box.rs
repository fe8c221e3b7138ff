//! Bounding boxes: areas of the field that belong to one side, used to detect
//! points and to keep paddles in their lanes. They are not colliders.
use vstd::prelude::*;
use crate::constants::MAX_COORD;
use crate::geometry::{Transform, Vec2};
use crate::paddle::Side;

verus! {

/// A rectangular area that belongs to `side`.
#[derive(Clone, Copy, Debug, PartialEq, Eq, Structural)]
pub struct BoundingBox {
    pub transform: Transform,
    pub side: Side,
}

impl BoundingBox {
    pub fn new(transform: Transform, side: Side) -> (r: BoundingBox)
        requires
            transform.wf(),
        ensures
            r.transform == transform,
            r.side == side,
    {
        BoundingBox { transform, side }
    }

    /// Gives the box a width and a height.
    pub fn with_dimensions(self, width: i64, height: i64) -> (r: BoundingBox)
        requires
            self.transform.wf(),
            0 < width <= MAX_COORD,
            0 < height <= MAX_COORD,
        ensures
            r == (BoundingBox {
                transform: Transform { scale: Vec2 { x: width, y: height }, ..self.transform },
                ..self
            }),
            r.transform.wf(),
    {
        BoundingBox { transform: Transform { scale: Vec2 { x: width, y: height }, ..self.transform }, ..self }
    }

    /// Centres the box at `pos`.
    pub fn with_position(self, pos: Vec2) -> (r: BoundingBox)
        requires
            self.transform.wf(),
            pos.is_position(),
        ensures
            r == (BoundingBox { transform: Transform { translation: pos, ..self.transform }, ..self }),
            r.transform.wf(),
    {
        BoundingBox { transform: self.transform.at(pos), ..self }
    }

    /// Gives the box to `side`.
    pub fn on_side(self, side: Side) -> (r: BoundingBox)
        ensures
            r == (BoundingBox { side, ..self }),
    {
        BoundingBox { side, ..self }
    }
}

} // verus!
