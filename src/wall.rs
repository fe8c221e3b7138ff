//! Walls: static bodies that the ball bounces off.
use vstd::prelude::*;
use crate::constants::MAX_COORD;
use crate::geometry::{Transform, Vec2};

verus! {

/// An immovable wall.
#[derive(Clone, Copy, Debug, PartialEq, Eq, Structural)]
pub struct Wall {
    pub transform: Transform,
}

impl Wall {
    pub fn new(transform: Transform) -> (r: Wall)
        requires
            transform.wf(),
        ensures
            r.transform == transform,
    {
        Wall { transform }
    }

    /// Centres the wall at `pos`.
    pub fn at(self, pos: Vec2) -> (r: Wall)
        requires
            self.transform.wf(),
            pos.is_position(),
        ensures
            r.transform == (Transform { translation: pos, ..self.transform }),
            r.transform.wf(),
    {
        Wall { transform: self.transform.at(pos) }
    }

    /// Gives the wall a width and a height.
    pub fn with_size(self, width: i64, height: i64) -> (r: Wall)
        requires
            self.transform.wf(),
            0 < width <= MAX_COORD,
            0 < height <= MAX_COORD,
        ensures
            r.transform == (Transform { scale: Vec2 { x: width, y: height }, ..self.transform }),
            r.transform.wf(),
    {
        Wall { transform: Transform { scale: Vec2 { x: width, y: height }, ..self.transform } }
    }
}

} // verus!
