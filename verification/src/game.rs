//! The top-level game state and the per-tick driver. One `GameState` owns
//! the grid, the snake, its segment chain, the food spawner and the two
//! clocks; every update function takes it explicitly, with no ambient
//! global state. Within a tick the order is fixed and observable: the
//! buffered direction is committed, all segment countdowns run before the
//! head moves, the head moves before collisions are evaluated, and a food
//! hit grows the chain at the post-move head.

use vstd::prelude::*;
use crate::clock::GameClock;
use crate::collision::check_food;
use crate::collision::check_self_collision;
use crate::food::FoodSpawner;
use crate::food::all_in_bounds;
use crate::food::lemma_remove_keeps_food_invariants;
use crate::grid::Direction;
use crate::grid::Grid;
use crate::grid::Position;
use crate::segment::Segment;
use crate::segment::SegmentChain;
use crate::segment::advanced_chain;
use crate::segment::chain_in_bounds;
use crate::segment::chain_wf;
use crate::segment::grown_chain;
use crate::segment::hits;
use crate::segment::lemma_advanced_chain_in_bounds;
use crate::segment::lemma_grown_chain_in_bounds;
use crate::snake::Snake;
use crate::snake::set_intent_spec;

verus! {

/// The discrete outcome of one committed tick, for the presentation layer.
#[derive(Clone, Copy, PartialEq, Eq, Structural, Debug)]
pub enum TickEvent {
    /// The snake moved and hit nothing.
    Moved,
    /// The head landed on the food at this cell: the food is eaten, a new
    /// segment spawns at the head's cell, and the snake lengthens by one.
    Ate(Position),
    /// The head landed on its own body: the snake died and was reset in
    /// place, its length now zero and all segments cleared.
    Died,
}

/// The whole simulation state, owned explicitly and handed to each update
/// function.
#[derive(Debug)]
pub struct GameState {
    pub grid: Grid,
    pub snake: Snake,
    pub chain: SegmentChain,
    pub spawner: FoodSpawner,
    /// Gates movement, growth and collision.
    pub move_clock: GameClock,
    /// Gates food spawning, on its own independently configured interval.
    pub food_clock: GameClock,
}

/// How one committed tick relates the state afterwards (`post`) to the state
/// before (`pre`), and which event it reports. The pending direction is
/// committed; every segment runs its countdown step against the pre-move
/// head; the head then moves one cell under the boundary policy; finally
/// the post-move head is checked against the post-step segments and the
/// foods. A body hit resets length and chain and leaves the head and
/// direction as they are; a food hit removes that food and grows the chain
/// at the new head.
pub open spec fn tick_rel(pre: GameState, post: GameState, ev: TickEvent) -> bool {
    let dir = pre.snake.pending_direction;
    let moved = advanced_chain(pre.chain.segments@, pre.snake.head, pre.snake.length);
    let new_head = pre.grid.step_spec(pre.snake.head, dir);
    &&& post.grid == pre.grid
    &&& post.spawner.cap == pre.spawner.cap
    &&& post.snake.current_direction == dir
    &&& post.snake.pending_direction == dir
    &&& post.snake.head == new_head
    &&& if hits(moved, new_head) {
        &&& ev == TickEvent::Died
        &&& post.snake.length == 0
        &&& post.chain.segments@ == Seq::<Segment>::empty()
        &&& post.spawner.foods@ == pre.spawner.foods@
    } else if pre.spawner.foods@.contains(new_head) {
        &&& ev == TickEvent::Ate(new_head)
        &&& post.snake.length == pre.snake.length + 1
        &&& post.chain.segments@ == grown_chain(moved, new_head, pre.snake.length)
        &&& exists|i: int|
            {
                &&& 0 <= i < pre.spawner.foods@.len()
                &&& #[trigger] pre.spawner.foods@[i] == new_head
                &&& (forall|j: int| 0 <= j < i ==> pre.spawner.foods@[j] != new_head)
                &&& post.spawner.foods@ == pre.spawner.foods@.remove(i)
            }
    } else {
        &&& ev == TickEvent::Moved
        &&& post.snake.length == pre.snake.length
        &&& post.chain.segments@ == moved
        &&& post.spawner.foods@ == pre.spawner.foods@
    }
}

impl GameState {
    /// Everything the components promise each other across ticks: a valid
    /// grid, the head and every segment and food on the board, the length
    /// counting exactly the live segments, countdowns bounded by the length,
    /// foods within their cap and pairwise distinct, and positive clock
    /// intervals.
    pub open spec fn wf(self) -> bool {
        &&& self.grid.wf()
        &&& self.grid.in_bounds(self.snake.head)
        &&& chain_wf(self.chain.segments@, self.snake.length)
        &&& chain_in_bounds(self.chain.segments@, self.grid)
        &&& self.spawner.wf()
        &&& all_in_bounds(self.spawner.foods@, self.grid)
        &&& self.move_clock.wf()
        &&& self.food_clock.wf()
    }

    /// A fresh game: a snake of length zero at `start` facing `d`, no
    /// segments, no food, both clocks at zero. The caller must validate the
    /// configuration: a degenerate grid, an off-board start or a zero
    /// interval is a startup-time fatal condition, not a runtime one.
    pub fn new(
        grid: Grid,
        start: Position,
        d: Direction,
        move_interval: u64,
        food_interval: u64,
        food_cap: usize,
    ) -> (r: GameState)
        requires
            grid.wf(),
            grid.in_bounds(start),
            move_interval > 0,
            food_interval > 0,
        ensures
            r.wf(),
            r.grid == grid,
            r.snake == (Snake {
                current_direction: d,
                pending_direction: d,
                length: 0,
                head: start,
            }),
            r.chain.segments@ == Seq::<Segment>::empty(),
            r.spawner.foods@ == Seq::<Position>::empty(),
            r.spawner.cap == food_cap,
            r.move_clock == (GameClock { interval: move_interval, accumulated: 0 }),
            r.food_clock == (GameClock { interval: food_interval, accumulated: 0 }),
    {
        GameState {
            grid,
            snake: Snake::new(start, d),
            chain: SegmentChain::new(),
            spawner: FoodSpawner::new(food_cap),
            move_clock: GameClock::new(move_interval),
            food_clock: GameClock::new(food_interval),
        }
    }

    /// Latch a direction intent from the input collaborator. Repeated
    /// requests are idempotent, and an exact reversal is silently dropped;
    /// nothing else changes until the next tick commits the intent.
    pub fn set_intent(&mut self, d: Direction)
        requires
            old(self).wf(),
        ensures
            final(self).wf(),
            final(self).snake == set_intent_spec(old(self).snake, d),
            final(self).grid == old(self).grid,
            final(self).chain.segments@ == old(self).chain.segments@,
            final(self).spawner.foods@ == old(self).spawner.foods@,
            final(self).spawner.cap == old(self).spawner.cap,
            final(self).move_clock == old(self).move_clock,
            final(self).food_clock == old(self).food_clock,
    {
        self.snake.set_intent(d);
    }

    /// Run one committed tick in the fixed order described by `tick_rel`.
    pub fn tick_step(&mut self) -> (ev: TickEvent)
        requires
            old(self).wf(),
            old(self).snake.length < u64::MAX,
        ensures
            final(self).wf(),
            tick_rel(*old(self), *final(self), ev),
            final(self).move_clock == old(self).move_clock,
            final(self).food_clock == old(self).food_clock,
    {
        self.snake.commit();
        let dir: Direction = self.snake.current_direction;
        let prev_head: Position = self.snake.head;
        self.chain.advance(prev_head, self.snake.length);
        let new_head: Position = self.grid.step(prev_head, dir);
        self.snake.head = new_head;
        if check_self_collision(new_head, &self.chain) {
            self.chain.kill();
            self.snake.length = 0;
            TickEvent::Died
        } else {
            proof {
                lemma_advanced_chain_in_bounds(
                    old(self).chain.segments@,
                    prev_head,
                    old(self).snake.length,
                    self.grid,
                );
            }
            match check_food(new_head, &self.spawner.foods) {
                Some(i) => {
                    proof {
                        assert(self.spawner.foods@[i as int] == new_head);
                        lemma_remove_keeps_food_invariants(
                            self.spawner.foods@,
                            i as int,
                            self.grid,
                        );
                    }
                    self.spawner.foods.remove(i);
                    self.chain.grow(new_head, self.snake.length);
                    self.snake.length = self.snake.length + 1;
                    proof {
                        lemma_grown_chain_in_bounds(
                            advanced_chain(
                                old(self).chain.segments@,
                                prev_head,
                                old(self).snake.length,
                            ),
                            new_head,
                            old(self).snake.length,
                            self.grid,
                        );
                    }
                    TickEvent::Ate(new_head)
                }
                None => TickEvent::Moved,
            }
        }
    }

    /// Feed elapsed real time to the movement clock and, exactly when it
    /// crosses its interval, run one committed tick. At most one logical
    /// tick fires per call: under severe lag the excess time is carried and
    /// simulation time falls behind rather than multiplying ticks.
    pub fn update(&mut self, elapsed: u64) -> (ev: Option<TickEvent>)
        requires
            old(self).wf(),
            old(self).snake.length < u64::MAX,
            old(self).move_clock.accumulated + elapsed <= u64::MAX,
        ensures
            final(self).wf(),
            final(self).food_clock == old(self).food_clock,
            final(self).move_clock.interval == old(self).move_clock.interval,
            final(self).move_clock.accumulated == if old(self).move_clock.fires(elapsed) {
                old(self).move_clock.accumulated + elapsed - old(self).move_clock.interval
            } else {
                old(self).move_clock.accumulated + elapsed
            },
            if old(self).move_clock.fires(elapsed) {
                ev matches Some(e) && tick_rel(*old(self), *final(self), e)
            } else {
                &&& ev is None
                &&& final(self).grid == old(self).grid
                &&& final(self).snake == old(self).snake
                &&& final(self).chain.segments@ == old(self).chain.segments@
                &&& final(self).spawner.foods@ == old(self).spawner.foods@
                &&& final(self).spawner.cap == old(self).spawner.cap
            },
    {
        let fired: bool = self.move_clock.tick(elapsed);
        if fired {
            Some(self.tick_step())
        } else {
            None
        }
    }

    /// Feed elapsed real time to the food clock and, exactly when it crosses
    /// its interval, run one spawn attempt against the cells the snake
    /// occupies. A successful attempt returns the new food's cell, which
    /// collides with nothing live at that instant; a failed one (cap
    /// reached, or every draw collided) changes nothing and is retried on
    /// the next interval.
    pub fn update_food(&mut self, elapsed: u64) -> (r: Option<Position>)
        requires
            old(self).wf(),
            old(self).food_clock.accumulated + elapsed <= u64::MAX,
        ensures
            final(self).wf(),
            final(self).grid == old(self).grid,
            final(self).snake == old(self).snake,
            final(self).chain.segments@ == old(self).chain.segments@,
            final(self).spawner.cap == old(self).spawner.cap,
            final(self).move_clock == old(self).move_clock,
            final(self).food_clock.interval == old(self).food_clock.interval,
            final(self).food_clock.accumulated == if old(self).food_clock.fires(elapsed) {
                old(self).food_clock.accumulated + elapsed - old(self).food_clock.interval
            } else {
                old(self).food_clock.accumulated + elapsed
            },
            !old(self).food_clock.fires(elapsed) ==> r is None,
            match r {
                Some(p) => {
                    &&& old(self).spawner.foods@.len() < old(self).spawner.cap
                    &&& old(self).grid.in_bounds(p)
                    &&& p != old(self).snake.head
                    &&& !hits(old(self).chain.segments@, p)
                    &&& !old(self).spawner.foods@.contains(p)
                    &&& final(self).spawner.foods@ == old(self).spawner.foods@.push(p)
                },
                None => final(self).spawner.foods@ == old(self).spawner.foods@,
            },
            (old(self).food_clock.fires(elapsed) && old(self).spawner.foods@.len()
                >= old(self).spawner.cap) ==> r is None,
    {
        let fired: bool = self.food_clock.tick(elapsed);
        if !fired {
            return None;
        }
        let occupied: Vec<Position> = self.occupied_cells();
        let r: Option<Position> = self.spawner.maybe_spawn(&self.grid, &occupied);
        proof {
            if r is Some {
                let p = r->Some_0;
                assert(!occupied@.contains(p));
                assert(all_in_bounds(self.spawner.foods@, self.grid)) by {
                    assert forall|a: int|
                        0 <= a < self.spawner.foods@.len() implies self.grid.in_bounds(
                        #[trigger] self.spawner.foods@[a],
                    ) by {
                        if a < old(self).spawner.foods@.len() {
                            assert(self.spawner.foods@[a] == old(self).spawner.foods@[a]);
                        }
                    }
                }
            }
        }
        r
    }

    /// The head's cell, for the presentation layer.
    pub fn head(&self) -> (r: Position)
        ensures
            r == self.snake.head,
    {
        self.snake.head
    }

    /// How many body segments follow the head.
    pub fn length(&self) -> (r: u64)
        ensures
            r == self.snake.length,
    {
        self.snake.length
    }

    /// The direction of the last committed move.
    pub fn current_direction(&self) -> (r: Direction)
        ensures
            r == self.snake.current_direction,
    {
        self.snake.current_direction
    }

    /// Every live segment's cell, in chain order. Segments persist across
    /// ticks — the presentation layer may map index `i` to the same visual
    /// entity every tick; they are repositioned, never recreated.
    pub fn segment_positions(&self) -> (v: Vec<Position>)
        ensures
            v@.len() == self.chain.segments@.len(),
            forall|i: int|
                0 <= i < v@.len() ==> v@[i] == #[trigger] self.chain.segments@[i].position,
    {
        let n: usize = self.chain.segments.len();
        let mut v: Vec<Position> = Vec::new();
        let mut i: usize = 0;
        while i < n
            invariant
                i <= n,
                n == self.chain.segments@.len(),
                v@.len() == i,
                forall|j: int|
                    0 <= j < i ==> v@[j] == #[trigger] self.chain.segments@[j].position,
            decreases n - i,
        {
            v.push(self.chain.segments[i].position);
            i = i + 1;
        }
        v
    }

    /// The cells of every live food, in spawn order.
    pub fn food_positions(&self) -> (v: Vec<Position>)
        ensures
            v@ == self.spawner.foods@,
    {
        let n: usize = self.spawner.foods.len();
        let mut v: Vec<Position> = Vec::new();
        let mut i: usize = 0;
        while i < n
            invariant
                i <= n,
                n == self.spawner.foods@.len(),
                v@ == self.spawner.foods@.subrange(0, i as int),
            decreases n - i,
        {
            v.push(self.spawner.foods[i]);
            assert(v@ =~= self.spawner.foods@.subrange(0, i as int + 1));
            i = i + 1;
        }
        assert(v@ =~= self.spawner.foods@);
        v
    }

    /// The cells the snake itself occupies: the head and every body segment.
    pub fn occupied_cells(&self) -> (v: Vec<Position>)
        ensures
            forall|q: Position|
                #[trigger] v@.contains(q) <==> (q == self.snake.head || hits(
                    self.chain.segments@,
                    q,
                )),
    {
        let mut v: Vec<Position> = Vec::new();
        v.push(self.snake.head);
        let n: usize = self.chain.segments.len();
        let mut i: usize = 0;
        while i < n
            invariant
                i <= n,
                n == self.chain.segments@.len(),
                v@.len() == i + 1,
                v@[0] == self.snake.head,
                forall|j: int|
                    0 <= j < i ==> v@[j + 1] == #[trigger] self.chain.segments@[j].position,
            decreases n - i,
        {
            v.push(self.chain.segments[i].position);
            i = i + 1;
        }
        proof {
            assert forall|q: Position|
                #[trigger] v@.contains(q) implies (q == self.snake.head || hits(
                self.chain.segments@,
                q,
            )) by {
                let k = choose|k: int| 0 <= k < v@.len() && v@[k] == q;
                if k > 0 {
                    assert(self.chain.segments@[k - 1].position == q);
                }
            }
            assert forall|q: Position|
                (q == self.snake.head || hits(self.chain.segments@, q)) implies #[trigger] v@
                .contains(q) by {
                if q == self.snake.head {
                    assert(v@[0] == q);
                } else {
                    let k = choose|k: int|
                        0 <= k < self.chain.segments@.len() && self.chain.segments@[k].position
                            == q;
                    assert(v@[k + 1] == q);
                }
            }
        }
        v
    }
}

} // verus!
