//! The library's general guarantees, stated and proved once, over the same
//! spec functions that the executable contracts use.

use vstd::prelude::*;
use crate::game::GameState;
use crate::game::TickEvent;
use crate::game::tick_rel;
use crate::grid::Direction;
use crate::grid::Grid;
use crate::grid::Position;
use crate::segment::Segment;
use crate::segment::advanced_chain;
use crate::segment::chain_wf;
use crate::segment::grown_chain;
use crate::segment::hits;
use crate::snake::Snake;
use crate::snake::commit_spec;
use crate::snake::set_intent_spec;

verus! {

/// The length bookkeeping survives growth: a chain whose recorded length
/// matches its live segment count before a growth event matches it again
/// afterwards, at one more, with every countdown still within bound.
pub proof fn lemma_grow_preserves_invariant(chain: Seq<Segment>, head: Position, length: u64)
    requires
        chain_wf(chain, length),
        length < u64::MAX,
    ensures
        chain_wf(grown_chain(chain, head, length), (length + 1) as u64),
        grown_chain(chain, head, length).len() == length + 1,
{
    let grown = grown_chain(chain, head, length);
    assert forall|i: int| 0 <= i < grown.len() implies #[trigger] grown[i].countdown <= length
        + 1 by {
        if i < chain.len() {
            assert(chain[i].countdown <= length);
        }
    }
}

/// The chain after a run of consecutive growth events, one per food-eaten
/// event, growing at each recorded head cell in turn while the recorded
/// length rises by one each time.
pub open spec fn grown_chain_n(chain: Seq<Segment>, heads: Seq<Position>, length: u64) -> Seq<
    Segment,
>
    decreases heads.len(),
{
    if heads.len() == 0 {
        chain
    } else {
        grown_chain_n(grown_chain(chain, heads[0], length), heads.drop_first(), (length + 1) as u64)
    }
}

/// Growth is monotonic and conservative: after `heads.len()` consecutive
/// growth events the chain holds exactly that many more segments than
/// before — no growth event ever removes one.
pub proof fn lemma_growth_monotonic(chain: Seq<Segment>, heads: Seq<Position>, length: u64)
    ensures
        grown_chain_n(chain, heads, length).len() == chain.len() + heads.len(),
    decreases heads.len(),
{
    if heads.len() > 0 {
        lemma_growth_monotonic(
            grown_chain(chain, heads[0], length),
            heads.drop_first(),
            (length + 1) as u64,
        );
    }
}

/// Reversal rejection: with no other intent pending, a request to reverse
/// the current direction is dropped, and the commit that follows leaves the
/// snake exactly as it was.
pub proof fn lemma_reversal_rejected(s: Snake, d: Direction)
    requires
        s.pending_direction == s.current_direction,
        d == s.current_direction.opposite_spec(),
    ensures
        commit_spec(set_intent_spec(s, d)) == s,
{
}

/// A death resets the whole chain at once, so the kill fires exactly once
/// per overlap: a tick that reports `Died` leaves length zero and no
/// segments, and with no body left the very next tick cannot report `Died`
/// again.
pub proof fn lemma_death_fires_once(
    pre: GameState,
    mid: GameState,
    post: GameState,
    e1: TickEvent,
    e2: TickEvent,
)
    requires
        tick_rel(pre, mid, e1),
        tick_rel(mid, post, e2),
        e1 == TickEvent::Died,
    ensures
        mid.snake.length == 0,
        mid.chain.segments@.len() == 0,
        e2 != TickEvent::Died,
{
    let moved = advanced_chain(
        mid.chain.segments@,
        mid.snake.head,
        mid.snake.length,
    );
    assert(moved.len() == 0);
    assert(!hits(moved, mid.grid.step_spec(mid.snake.head, mid.snake.pending_direction)));
}

/// On a wrapping grid, walking off an edge re-enters at the opposite edge:
/// a step right from the last column lands in column zero, and a step up
/// from the top row lands in the bottom row.
pub proof fn lemma_wrap_edges(grid: Grid, p: Position)
    requires
        grid.wf(),
        grid.wrap,
        grid.in_bounds(p),
    ensures
        p.x == grid.width - 1 ==> grid.step_spec(p, Direction::Right) == (Position {
            x: 0,
            y: p.y,
        }),
        p.y == 0 ==> grid.step_spec(p, Direction::Up) == (Position {
            x: p.x,
            y: (grid.height - 1) as i64,
        }),
{
}

} // verus!
