//! Players' scores and the event of a point scored.
use vstd::prelude::*;
use crate::paddle::Side;

verus! {

/// The points of the player on `side`.
#[derive(Clone, Copy, Debug, PartialEq, Eq, Structural)]
pub struct Score {
    pub value: u64,
    pub side: Side,
}

impl Score {
    pub fn new(value: u64, side: Side) -> (r: Score)
        ensures
            r.value == value,
            r.side == side,
    {
        Score { value, side }
    }

    /// Adds one point.
    pub fn increment(&mut self)
        requires
            old(self).value < u64::MAX,
        ensures
            final(self).value == old(self).value + 1,
            final(self).side == old(self).side,
    {
        self.value = self.value + 1;
    }
}

impl Default for Score {
    /// No points, on the left side.
    fn default() -> (r: Score)
        ensures
            r.value == 0,
            r.side == Side::Left,
    {
        Score { value: 0, side: Side::Left }
    }
}

/// Sent when a player scores.
#[derive(Clone, Copy, Debug, PartialEq, Eq, Structural)]
pub struct Event {
    /// The side of the player who scored.
    pub player_side: Side,
}

impl Event {
    pub fn new(player_side: Side) -> (r: Event)
        ensures
            r.player_side == player_side,
    {
        Event { player_side }
    }
}

} // verus!
