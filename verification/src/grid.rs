//! The coordinate space: cardinal directions, grid cells, and the board
//! with its boundary policy (wrap around the edges, or clamp at them).

use vstd::prelude::*;

verus! {

/// One of the four cardinal movement directions.
#[derive(Clone, Copy, PartialEq, Eq, Structural, Debug)]
pub enum Direction {
    Up,
    Down,
    Left,
    Right,
}

impl Direction {
    /// The direction pointing the opposite way; moving there from a standstill
    /// would reverse the snake onto itself.
    pub open spec fn opposite_spec(self) -> Direction {
        match self {
            Direction::Up => Direction::Down,
            Direction::Down => Direction::Up,
            Direction::Left => Direction::Right,
            Direction::Right => Direction::Left,
        }
    }

    pub fn opposite(self) -> (r: Direction)
        ensures
            r == self.opposite_spec(),
    {
        match self {
            Direction::Up => Direction::Down,
            Direction::Down => Direction::Up,
            Direction::Left => Direction::Right,
            Direction::Right => Direction::Left,
        }
    }
}

/// A cell of the grid, addressed by column `x` and row `y`.
/// `y` grows downward, so moving `Up` decreases `y`.
#[derive(Clone, Copy, PartialEq, Eq, Structural, Debug)]
pub struct Position {
    pub x: i64,
    pub y: i64,
}

/// The playing field: `width` columns by `height` rows of cells, with a
/// boundary policy. With `wrap` true, walking off one edge re-enters at the
/// opposite edge; with `wrap` false, a move past an edge is clamped to it.
#[derive(Clone, Copy, PartialEq, Eq, Structural, Debug)]
pub struct Grid {
    pub width: i64,
    pub height: i64,
    pub wrap: bool,
}

/// A coordinate one step out of `[0, bound)` carried back to the opposite
/// edge; an in-range coordinate is left alone.
pub open spec fn wrapped(v: int, bound: int) -> int {
    if v < 0 {
        bound - 1
    } else if v > bound - 1 {
        0
    } else {
        v
    }
}

/// A coordinate held inside `[0, bound)`: a move past an edge stops at it.
pub open spec fn clamped(v: int, bound: int) -> int {
    if v < 0 {
        0
    } else if v > bound - 1 {
        bound - 1
    } else {
        v
    }
}

impl Grid {
    /// A degenerate board has no cells; the surrounding driver must validate
    /// its configuration before constructing the core.
    pub open spec fn wf(self) -> bool {
        0 < self.width && 0 < self.height
    }

    /// `p` lies on the board.
    pub open spec fn in_bounds(self, p: Position) -> bool {
        0 <= p.x < self.width && 0 <= p.y < self.height
    }

    /// The coordinate `v` brought back into `[0, bound)` under this board's
    /// boundary policy.
    pub open spec fn adjusted(self, v: int, bound: int) -> int {
        if self.wrap {
            wrapped(v, bound)
        } else {
            clamped(v, bound)
        }
    }

    /// Where a step from `p` in direction `d` lands.
    pub open spec fn step_spec(self, p: Position, d: Direction) -> Position {
        match d {
            Direction::Right => Position { x: self.adjusted(p.x + 1, self.width as int) as i64, y: p.y },
            Direction::Left => Position { x: self.adjusted(p.x - 1, self.width as int) as i64, y: p.y },
            Direction::Up => Position { x: p.x, y: self.adjusted(p.y - 1, self.height as int) as i64 },
            Direction::Down => Position { x: p.x, y: self.adjusted(p.y + 1, self.height as int) as i64 },
        }
    }

    /// Move one cell from `p` in direction `d`, applying the boundary policy.
    /// Every move from an on-board cell lands on an on-board cell.
    pub fn step(&self, p: Position, d: Direction) -> (r: Position)
        requires
            self.wf(),
            self.in_bounds(p),
        ensures
            r == self.step_spec(p, d),
            self.in_bounds(r),
    {
        let mut x: i64 = p.x;
        let mut y: i64 = p.y;
        match d {
            Direction::Right => {
                x = x + 1;
            }
            Direction::Left => {
                x = x - 1;
            }
            Direction::Up => {
                y = y - 1;
            }
            Direction::Down => {
                y = y + 1;
            }
        }
        if self.wrap {
            if x < 0 {
                x = self.width - 1;
            }
            if x > self.width - 1 {
                x = 0;
            }
            if y < 0 {
                y = self.height - 1;
            }
            if y > self.height - 1 {
                y = 0;
            }
        } else {
            if x < 0 {
                x = 0;
            }
            if x > self.width - 1 {
                x = self.width - 1;
            }
            if y < 0 {
                y = 0;
            }
            if y > self.height - 1 {
                y = self.height - 1;
            }
        }
        Position { x, y }
    }
}

} // verus!
