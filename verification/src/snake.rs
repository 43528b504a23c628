//! The snake record: its head cell, its committed and pending movement
//! directions, and the length bookkeeping. The pending direction acts as a
//! buffer between input polling and the tick: an intent is validated when it
//! arrives and only takes effect when the tick commits it.

use vstd::prelude::*;
use crate::grid::Direction;
use crate::grid::Position;

verus! {

/// One living snake. `length` counts the body segments behind the head;
/// a fresh snake has length 0 and grows on food events.
#[derive(Clone, Copy, PartialEq, Eq, Structural, Debug)]
pub struct Snake {
    /// The direction the head moved on the last committed tick.
    pub current_direction: Direction,
    /// The latest validated intent, applied at the next tick.
    pub pending_direction: Direction,
    /// How many body segments follow the head.
    pub length: u64,
    /// The head's cell on the grid.
    pub head: Position,
}

/// The snake after an intent `d` arrives: the pending direction is
/// overwritten unless `d` would exactly reverse the current direction,
/// in which case the request is silently dropped.
pub open spec fn set_intent_spec(s: Snake, d: Direction) -> Snake {
    if d == s.current_direction.opposite_spec() {
        s
    } else {
        Snake { pending_direction: d, ..s }
    }
}

/// The snake after a tick commits the buffered intent: the pending direction
/// becomes the current one. With no intent set since the last commit the two
/// already agree, so the previous direction persists.
pub open spec fn commit_spec(s: Snake) -> Snake {
    Snake { current_direction: s.pending_direction, ..s }
}

impl Snake {
    /// A fresh snake at `head`, facing `d`, with no body yet.
    pub fn new(head: Position, d: Direction) -> (r: Snake)
        ensures
            r == (Snake { current_direction: d, pending_direction: d, length: 0, head }),
    {
        Snake { current_direction: d, pending_direction: d, length: 0, head }
    }

    /// Buffer a direction request. An exact reversal of the current direction
    /// is dropped: committing it would be an immediate, unavoidable death.
    pub fn set_intent(&mut self, d: Direction)
        ensures
            *final(self) == set_intent_spec(*old(self), d),
    {
        let rejected: Direction = self.current_direction.opposite();
        if !(d == rejected) {
            self.pending_direction = d;
        }
    }

    /// Commit the buffered intent for this tick: the pending direction
    /// becomes the active one. Nothing else changes.
    pub fn commit(&mut self)
        ensures
            *final(self) == commit_spec(*old(self)),
    {
        self.current_direction = self.pending_direction;
    }
}

} // verus!
