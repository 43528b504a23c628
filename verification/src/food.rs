//! Food placement: a bounded number of random draws inside the grid, the
//! first unoccupied one accepted. The live food count is capped; when the
//! cap is reached, or every draw collides, the interval is silently skipped
//! and spawning is retried on the next one.

use vstd::prelude::*;
use crate::grid::Grid;
use crate::grid::Position;
use crate::rng::random_below;

verus! {

/// How many random draws one spawn attempt may make. The search is a bounded
/// retry, not exhaustive: on a nearly full board every draw may collide, and
/// that interval spawns nothing.
pub const SPAWN_ATTEMPTS: usize = 5;

/// No two entries occupy the same cell.
pub open spec fn distinct_positions(s: Seq<Position>) -> bool {
    forall|i: int, j: int| 0 <= i < j < s.len() ==> s[i] != s[j]
}

/// Every entry lies on the board.
pub open spec fn all_in_bounds(s: Seq<Position>, grid: Grid) -> bool {
    forall|i: int| 0 <= i < s.len() ==> grid.in_bounds(#[trigger] s[i])
}

/// Eating one food leaves the rest distinct and on the board.
pub proof fn lemma_remove_keeps_food_invariants(s: Seq<Position>, i: int, grid: Grid)
    requires
        distinct_positions(s),
        all_in_bounds(s, grid),
        0 <= i < s.len(),
    ensures
        distinct_positions(s.remove(i)),
        all_in_bounds(s.remove(i), grid),
{
    let t = s.remove(i);
    assert forall|a: int, b: int| 0 <= a < b < t.len() implies t[a] != t[b] by {
        if a < i {
            assert(t[a] == s[a]);
        } else {
            assert(t[a] == s[a + 1]);
        }
        if b < i {
            assert(t[b] == s[b]);
        } else {
            assert(t[b] == s[b + 1]);
        }
    }
    assert forall|a: int| 0 <= a < t.len() implies grid.in_bounds(#[trigger] t[a]) by {
        if a < i {
            assert(t[a] == s[a]);
        } else {
            assert(t[a] == s[a + 1]);
        }
    }
}

/// The first draw that collides with neither the `occupied` cells (head and
/// segments) nor the live `foods`, or nothing when every draw collides.
pub open spec fn first_free(
    draws: Seq<Position>,
    occupied: Seq<Position>,
    foods: Seq<Position>,
) -> Option<Position>
    decreases draws.len(),
{
    if draws.len() == 0 {
        None
    } else if !occupied.contains(draws[0]) && !foods.contains(draws[0]) {
        Some(draws[0])
    } else {
        first_free(draws.drop_first(), occupied, foods)
    }
}

/// What `first_free` yields: an accepted draw collides with nothing, and
/// a failed search means every draw collided with something.
pub proof fn lemma_first_free(draws: Seq<Position>, occupied: Seq<Position>, foods: Seq<Position>)
    ensures
        match first_free(draws, occupied, foods) {
            Some(p) => draws.contains(p) && !occupied.contains(p) && !foods.contains(p),
            None => forall|i: int|
                0 <= i < draws.len() ==> occupied.contains(#[trigger] draws[i]) || foods.contains(
                    draws[i],
                ),
        },
    decreases draws.len(),
{
    if draws.len() == 0 {
    } else if !occupied.contains(draws[0]) && !foods.contains(draws[0]) {
        assert(draws.contains(draws[0]));
    } else {
        lemma_first_free(draws.drop_first(), occupied, foods);
        let rest = draws.drop_first();
        match first_free(draws, occupied, foods) {
            Some(p) => {
                let i = choose|i: int| 0 <= i < rest.len() && rest[i] == p;
                assert(draws[i + 1] == p);
            }
            None => {
                assert forall|i: int| 0 <= i < draws.len() implies occupied.contains(
                    #[trigger] draws[i],
                ) || foods.contains(draws[i]) by {
                    if i > 0 {
                        assert(rest[i - 1] == draws[i]);
                    }
                }
            }
        }
    }
}

/// `v` holds the cell `p`.
pub fn contains_position(v: &Vec<Position>, p: Position) -> (r: bool)
    ensures
        r == v@.contains(p),
{
    let n: usize = v.len();
    let mut i: usize = 0;
    while i < n
        invariant
            i <= n,
            n == v@.len(),
            forall|j: int| 0 <= j < i ==> v@[j] != p,
        decreases n - i,
    {
        if v[i] == p {
            return true;
        }
        i = i + 1;
    }
    false
}

/// The deterministic half of spawning: given the cells the draws produced,
/// pick the first one that collides with neither `occupied` nor `foods`.
pub fn select_spawn(
    draws: &Vec<Position>,
    occupied: &Vec<Position>,
    foods: &Vec<Position>,
) -> (r: Option<Position>)
    ensures
        r == first_free(draws@, occupied@, foods@),
{
    let n: usize = draws.len();
    let mut i: usize = 0;
    assert(draws@.skip(0) =~= draws@);
    while i < n
        invariant
            i <= n,
            n == draws@.len(),
            first_free(draws@, occupied@, foods@) == first_free(
                draws@.skip(i as int),
                occupied@,
                foods@,
            ),
        decreases n - i,
    {
        let p: Position = draws[i];
        assert(draws@.skip(i as int)[0] == p);
        if !contains_position(occupied, p) && !contains_position(foods, p) {
            return Some(p);
        }
        assert(draws@.skip(i as int).drop_first() =~= draws@.skip(i as int + 1));
        i = i + 1;
    }
    assert(draws@.skip(n as int) =~= Seq::<Position>::empty());
    None
}

/// Places food at unoccupied cells on its own interval, with a bounded
/// random retry and a cap on how many foods may be live at once.
#[derive(Debug)]
pub struct FoodSpawner {
    /// The cells of the live, not yet eaten foods.
    pub foods: Vec<Position>,
    /// How many foods may be live at once.
    pub cap: usize,
}

impl FoodSpawner {
    /// The spawner never overfills its cap and never lets two foods share a
    /// cell.
    pub open spec fn wf(self) -> bool {
        &&& self.foods@.len() <= self.cap
        &&& distinct_positions(self.foods@)
    }

    /// A fresh spawner with no live food.
    pub fn new(cap: usize) -> (r: FoodSpawner)
        ensures
            r.foods@ == Seq::<Position>::empty(),
            r.cap == cap,
            r.wf(),
    {
        FoodSpawner { foods: Vec::new(), cap }
    }

    /// One spawn attempt. A no-op when the live food count has reached the
    /// cap. Otherwise up to `SPAWN_ATTEMPTS` random cells are drawn within
    /// the grid; the first one colliding with neither an `occupied` cell
    /// (head and segments) nor a live food is accepted, recorded, and
    /// returned. When every draw collides, nothing spawns this interval.
    /// When no on-board cell is occupied at all, a draw is always accepted.
    pub fn maybe_spawn(&mut self, grid: &Grid, occupied: &Vec<Position>) -> (r: Option<Position>)
        requires
            grid.wf(),
            old(self).wf(),
        ensures
            final(self).cap == old(self).cap,
            final(self).wf(),
            match r {
                Some(p) => {
                    &&& old(self).foods@.len() < old(self).cap
                    &&& grid.in_bounds(p)
                    &&& !occupied@.contains(p)
                    &&& !old(self).foods@.contains(p)
                    &&& final(self).foods@ == old(self).foods@.push(p)
                },
                None => final(self).foods@ == old(self).foods@,
            },
            old(self).foods@.len() >= old(self).cap ==> r is None,
            ({
                &&& old(self).foods@.len() < old(self).cap
                &&& forall|q: Position| occupied@.contains(q) ==> !grid.in_bounds(q)
                &&& forall|q: Position| old(self).foods@.contains(q) ==> !grid.in_bounds(q)
            }) ==> r is Some,
    {
        if self.foods.len() >= self.cap {
            return None;
        }
        let mut draws: Vec<Position> = Vec::new();
        let mut k: usize = 0;
        while k < SPAWN_ATTEMPTS
            invariant
                k <= SPAWN_ATTEMPTS,
                draws@.len() == k,
                grid.wf(),
                all_in_bounds(draws@, *grid),
            decreases SPAWN_ATTEMPTS - k,
        {
            let x: i64 = random_below(grid.width);
            let y: i64 = random_below(grid.height);
            draws.push(Position { x, y });
            k = k + 1;
        }
        let choice: Option<Position> = select_spawn(&draws, occupied, &self.foods);
        proof {
            lemma_first_free(draws@, occupied@, self.foods@);
        }
        match choice {
            Some(p) => {
                proof {
                    let i = choose|i: int| 0 <= i < draws@.len() && draws@[i] == p;
                    assert(grid.in_bounds(draws@[i]));
                    assert(forall|j: int| 0 <= j < self.foods@.len() ==> self.foods@[j] != p);
                }
                self.foods.push(p);
                Some(p)
            }
            None => {
                proof {
                    if old(self).foods@.len() < old(self).cap && (forall|q: Position|
                        occupied@.contains(q) ==> !grid.in_bounds(q)) && (forall|q: Position|
                        old(self).foods@.contains(q) ==> !grid.in_bounds(q)) {
                        assert(draws@.len() == SPAWN_ATTEMPTS);
                        assert(occupied@.contains(draws@[0]) || self.foods@.contains(draws@[0]));
                        assert(grid.in_bounds(draws@[0]));
                        assert(false);
                    }
                }
                None
            }
        }
    }
}

} // verus!
