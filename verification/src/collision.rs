//! Collision checks: head against the body, and head against the food set.
//! Both are evaluated after the head has moved for the tick, against the
//! segment positions as updated in that same tick — a segment that just
//! teleported onto the head's old cell is a valid collision target.

use vstd::prelude::*;
use crate::grid::Position;
use crate::segment::SegmentChain;
use crate::segment::hits;

verus! {

/// True exactly when the (post-move) head occupies the same cell as some
/// live segment. On true the caller resets the chain.
pub fn check_self_collision(head: Position, chain: &SegmentChain) -> (r: bool)
    ensures
        r == hits(chain.segments@, head),
{
    let n: usize = chain.segments.len();
    let mut i: usize = 0;
    while i < n
        invariant
            i <= n,
            n == chain.segments@.len(),
            forall|j: int| 0 <= j < i ==> chain.segments@[j].position != head,
        decreases n - i,
    {
        if chain.segments[i].position == head {
            return true;
        }
        i = i + 1;
    }
    false
}

/// The index of the first food whose cell the (post-move) head occupies,
/// or nothing when the head is on no food. The caller removes the returned
/// food and triggers growth. With foods kept pairwise distinct, at most one
/// food can match.
pub fn check_food(head: Position, foods: &Vec<Position>) -> (r: Option<usize>)
    ensures
        match r {
            Some(i) => i < foods@.len() && foods@[i as int] == head && forall|j: int|
                0 <= j < i ==> foods@[j] != head,
            None => !foods@.contains(head),
        },
{
    let n: usize = foods.len();
    let mut i: usize = 0;
    while i < n
        invariant
            i <= n,
            n == foods@.len(),
            forall|j: int| 0 <= j < i ==> foods@[j] != head,
        decreases n - i,
    {
        if foods[i] == head {
            return Some(i);
        }
        i = i + 1;
    }
    assert(forall|j: int| 0 <= j < foods@.len() ==> foods@[j] != head);
    None
}

} // verus!
