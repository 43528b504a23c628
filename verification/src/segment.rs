//! The snake's body: an ordered chain of segments, each following the head
//! with a staggered delay. Instead of shifting a position history every
//! tick, each segment counts down to the tick at which it teleports to the
//! cell the head occupied just before the head's own move, then starts a
//! fresh countdown. This keeps each segment exactly one cell behind the one
//! ahead of it once the chain has settled.

use vstd::prelude::*;
use vstd::pervasive::VecAdditionalExecFns;
use crate::grid::Grid;
use crate::grid::Position;

verus! {

/// One unit of snake body, excluding the head. `countdown` is the number of
/// ticks remaining before this segment jumps to the head's prior cell.
#[derive(Clone, Copy, PartialEq, Eq, Structural, Debug)]
pub struct Segment {
    pub position: Position,
    pub countdown: u64,
}

/// What one tick does to a single segment: a positive countdown is
/// decremented and nothing else happens; a countdown that reached zero
/// teleports the segment to `head` (the head's cell before its own move this
/// tick) and resets the countdown to `length - 1`.
pub open spec fn advanced_segment(seg: Segment, head: Position, length: u64) -> Segment {
    if seg.countdown > 0 {
        Segment { position: seg.position, countdown: (seg.countdown - 1) as u64 }
    } else {
        Segment { position: head, countdown: (length - 1) as u64 }
    }
}

/// What one tick does to the whole chain, segment by segment, before the
/// head itself moves.
pub open spec fn advanced_chain(chain: Seq<Segment>, head: Position, length: u64) -> Seq<Segment> {
    chain.map_values(|seg: Segment| advanced_segment(seg, head, length))
}

/// What a growth event does to the chain: every existing segment's countdown
/// is raised by one, so the lengthening chain does not let a segment catch up
/// prematurely, and a new segment appears at the head's current cell with
/// countdown `length + 1`. `length` is the snake's length before growing.
pub open spec fn grown_chain(chain: Seq<Segment>, head: Position, length: u64) -> Seq<Segment> {
    chain.map_values(
        |seg: Segment| Segment { position: seg.position, countdown: (seg.countdown + 1) as u64 },
    ).push(Segment { position: head, countdown: (length + 1) as u64 })
}

/// Some live segment occupies cell `p`.
pub open spec fn hits(chain: Seq<Segment>, p: Position) -> bool {
    exists|i: int| 0 <= i < chain.len() && chain[i].position == p
}

/// The chain's bookkeeping invariant against the snake's recorded `length`:
/// the length counts exactly the live segments, and no countdown ever
/// exceeds the length. Both are established at construction and preserved by
/// every tick, growth and death event.
pub open spec fn chain_wf(chain: Seq<Segment>, length: u64) -> bool {
    &&& chain.len() == length
    &&& forall|i: int| 0 <= i < chain.len() ==> #[trigger] chain[i].countdown <= length
}

/// Every segment lies on the board.
pub open spec fn chain_in_bounds(chain: Seq<Segment>, grid: Grid) -> bool {
    forall|i: int| 0 <= i < chain.len() ==> grid.in_bounds(#[trigger] chain[i].position)
}

/// A tick keeps every segment on the board: a segment either stays put or
/// teleports to the head's pre-move cell, which is itself on the board.
pub proof fn lemma_advanced_chain_in_bounds(
    chain: Seq<Segment>,
    head: Position,
    length: u64,
    grid: Grid,
)
    requires
        chain_in_bounds(chain, grid),
        grid.in_bounds(head),
    ensures
        chain_in_bounds(advanced_chain(chain, head, length), grid),
{
    let moved = advanced_chain(chain, head, length);
    assert forall|i: int| 0 <= i < moved.len() implies grid.in_bounds(
        #[trigger] moved[i].position,
    ) by {
        assert(moved[i] == advanced_segment(chain[i], head, length));
    }
}

/// A growth event keeps every segment on the board: existing positions are
/// untouched and the new segment sits at the head's cell.
pub proof fn lemma_grown_chain_in_bounds(
    chain: Seq<Segment>,
    head: Position,
    length: u64,
    grid: Grid,
)
    requires
        chain_in_bounds(chain, grid),
        grid.in_bounds(head),
    ensures
        chain_in_bounds(grown_chain(chain, head, length), grid),
{
    let grown = grown_chain(chain, head, length);
    assert forall|i: int| 0 <= i < grown.len() implies grid.in_bounds(
        #[trigger] grown[i].position,
    ) by {
        if i < chain.len() {
            assert(grown[i].position == chain[i].position);
        } else {
            assert(grown[i].position == head);
        }
    }
}

/// The ordered collection of body segments; it owns the growth and
/// follow-the-leader algorithm.
#[derive(Debug)]
pub struct SegmentChain {
    pub segments: Vec<Segment>,
}

impl SegmentChain {
    /// An empty chain, as a snake has at game start and after a death reset.
    pub fn new() -> (r: SegmentChain)
        ensures
            r.segments@ == Seq::<Segment>::empty(),
    {
        SegmentChain { segments: Vec::new() }
    }

    /// Run the per-tick countdown step for every segment, in order, before
    /// the head moves. `head` is the head's current (pre-move) cell and
    /// `length` the snake's current length.
    pub fn advance(&mut self, head: Position, length: u64)
        requires
            chain_wf(old(self).segments@, length),
        ensures
            final(self).segments@ == advanced_chain(old(self).segments@, head, length),
            chain_wf(final(self).segments@, length),
    {
        let ghost orig: Seq<Segment> = self.segments@;
        let n: usize = self.segments.len();
        let mut i: usize = 0;
        while i < n
            invariant
                i <= n,
                n == orig.len(),
                chain_wf(orig, length),
                self.segments@.len() == orig.len(),
                forall|j: int| i <= j < n ==> self.segments@[j] == orig[j],
                forall|j: int| 0 <= j < i ==> self.segments@[j] == advanced_segment(
                    orig[j],
                    head,
                    length,
                ),
            decreases n - i,
        {
            let seg: Segment = self.segments[i];
            if seg.countdown > 0 {
                self.segments.set(
                    i,
                    Segment { position: seg.position, countdown: seg.countdown - 1 },
                );
            } else {
                self.segments.set(i, Segment { position: head, countdown: length - 1 });
            }
            i = i + 1;
        }
        assert(self.segments@ =~= advanced_chain(orig, head, length));
    }

    /// Apply a growth event: raise every countdown by one and append a new
    /// segment at the head's current cell. `length` is the snake's length
    /// before this growth event; the caller raises it by one afterwards.
    pub fn grow(&mut self, head: Position, length: u64)
        requires
            chain_wf(old(self).segments@, length),
            length < u64::MAX,
        ensures
            final(self).segments@ == grown_chain(old(self).segments@, head, length),
            chain_wf(final(self).segments@, (length + 1) as u64),
    {
        let ghost orig: Seq<Segment> = self.segments@;
        let n: usize = self.segments.len();
        let mut i: usize = 0;
        while i < n
            invariant
                i <= n,
                n == orig.len(),
                chain_wf(orig, length),
                length < u64::MAX,
                self.segments@.len() == orig.len(),
                forall|j: int| i <= j < n ==> self.segments@[j] == orig[j],
                forall|j: int| 0 <= j < i ==> self.segments@[j] == (Segment {
                    position: orig[j].position,
                    countdown: (orig[j].countdown + 1) as u64,
                }),
            decreases n - i,
        {
            let seg: Segment = self.segments[i];
            assert(seg == orig[i as int]);
            self.segments.set(
                i,
                Segment { position: seg.position, countdown: seg.countdown + 1 },
            );
            i = i + 1;
        }
        self.segments.push(Segment { position: head, countdown: length + 1 });
        assert(self.segments@ =~= grown_chain(orig, head, length));
    }

    /// The death reset: all segments are cleared at once. Segments are never
    /// destroyed individually during normal play.
    pub fn kill(&mut self)
        ensures
            final(self).segments@ == Seq::<Segment>::empty(),
    {
        self.segments.clear();
        assert(self.segments@ =~= Seq::<Segment>::empty());
    }
}

} // verus!
