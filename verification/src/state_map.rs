//! Dense grid storage: one current-state and one next-state buffer per cell.

use vstd::prelude::*;
use crate::cell_state::{CellState, CurrentState, NextState};
use crate::position::Position;

verus! {

/// The largest supported grid extent along either axis.
pub const GRID_SIZE: usize = 1024;

/// The error raised by direct grid accessors for a coordinate outside the
/// grid.  Edit entry points clamp or no-op instead of surfacing it.
#[derive(Debug, PartialEq, Eq, Structural, Clone, Copy)]
pub enum GridError {
    OutOfBounds,
}

/// Row-major order on positions, the order in which `commit` reports
/// changed cells.
pub open spec fn pos_row_major_lt(p: Position, q: Position) -> bool {
    p.y < q.y || (p.y == q.y && p.x < q.x)
}

/// A fixed-extent dense grid of cells.  Every cell carries the state it
/// shows now and the state it will take at the next tick boundary; both
/// start `Empty`.  The grid is allocated once and never resized.
pub struct StateMap {
    /// The current-state buffer, row-major.
    pub current: Vec<CurrentState>,
    /// The next-state buffer, row-major.
    pub next: Vec<NextState>,
    /// The grid extent along `x`.
    pub width: usize,
    /// The grid extent along `y`.
    pub height: usize,
}

impl StateMap {
    /// Well-formedness: both buffers cover exactly `width * height` cells
    /// and the extent stays within the supported maximum.
    pub open spec fn wf(self) -> bool {
        &&& 1 <= self.width <= GRID_SIZE
        &&& 1 <= self.height <= GRID_SIZE
        &&& self.current@.len() == self.width * self.height
        &&& self.next@.len() == self.width * self.height
    }

    /// Whether `(x, y)` lies on the grid.
    pub open spec fn in_bounds(self, x: int, y: int) -> bool {
        0 <= x < self.width && 0 <= y < self.height
    }

    /// The current state of the cell at `(x, y)`.
    pub open spec fn cur_at(self, x: int, y: int) -> CellState {
        self.current@[y * self.width + x].0
    }

    /// The staged next state of the cell at `(x, y)`.
    pub open spec fn next_at(self, x: int, y: int) -> CellState {
        self.next@[y * self.width + x].0
    }

    /// Allocates a `width` by `height` grid with every cell `Empty` in
    /// both buffers.
    pub fn new(width: i32, height: i32) -> (r: StateMap)
        requires
            1 <= width <= GRID_SIZE,
            1 <= height <= GRID_SIZE,
        ensures
            r.wf(),
            r.width == width,
            r.height == height,
            forall|x: int, y: int|
                r.in_bounds(x, y) ==> r.cur_at(x, y) == CellState::Empty
                    && r.next_at(x, y) == CellState::Empty,
    {
        let w = width as usize;
        let h = height as usize;
        proof {
            lemma_grid_cells_bound(w as int, h as int);
        }
        let n = w * h;
        let mut current: Vec<CurrentState> = Vec::new();
        let mut next: Vec<NextState> = Vec::new();
        let mut i: usize = 0;
        while i < n
            invariant
                i <= n,
                n == w * h,
                current@.len() == i,
                next@.len() == i,
                forall|k: int|
                    0 <= k < i ==> current@[k].0 == CellState::Empty
                        && next@[k].0 == CellState::Empty,
            decreases n - i,
        {
            current.push(CurrentState(CellState::Empty));
            next.push(NextState(CellState::Empty));
            i = i + 1;
        }
        let r = StateMap { current, next, width: w, height: h };
        proof {
            assert forall|x: int, y: int| r.in_bounds(x, y) implies r.cur_at(x, y)
                == CellState::Empty && r.next_at(x, y) == CellState::Empty by {
                lemma_index_bounds(w as int, h as int, x, y);
            }
        }
        r
    }

    /// Pure bounds predicate; edits use it to silently skip coordinates
    /// off the grid.
    pub fn inside(&self, p: Position) -> (r: bool)
        ensures
            r == self.in_bounds(p.x as int, p.y as int),
    {
        p.x >= 0 && p.y >= 0 && (p.x as usize) < self.width && (p.y as usize) < self.height
    }

    /// The row-major buffer index of an in-bounds coordinate.
    pub fn pos_to_index(&self, p: Position) -> (i: usize)
        requires
            self.wf(),
            self.in_bounds(p.x as int, p.y as int),
        ensures
            i == p.y * self.width + p.x,
            i < self.width * self.height,
    {
        proof {
            lemma_index_bounds(self.width as int, self.height as int, p.x as int, p.y as int);
            lemma_grid_cells_bound(self.width as int, self.height as int);
        }
        (p.y as usize) * self.width + (p.x as usize)
    }

    /// The coordinate of a row-major buffer index.
    pub fn index_to_pos(&self, i: usize) -> (p: Position)
        requires
            self.wf(),
            i < self.width * self.height,
        ensures
            p.x == (i as int) % (self.width as int),
            p.y == (i as int) / (self.width as int),
            self.in_bounds(p.x as int, p.y as int),
            i == p.y * self.width + p.x,
    {
        proof {
            lemma_index_split(self.width as int, self.height as int, i as int);
        }
        Position { x: (i % self.width) as i32, y: (i / self.width) as i32 }
    }

    /// The current state of the cell at `p`; `Empty` for an in-bounds cell
    /// never touched, `OutOfBounds` for a coordinate off the grid.
    pub fn get(&self, p: Position) -> (r: Result<CellState, GridError>)
        requires
            self.wf(),
        ensures
            self.in_bounds(p.x as int, p.y as int) ==> r == Ok::<CellState, GridError>(
                self.cur_at(p.x as int, p.y as int),
            ),
            !self.in_bounds(p.x as int, p.y as int) ==> r == Err::<CellState, GridError>(
                GridError::OutOfBounds,
            ),
    {
        if !self.inside(p) {
            return Err(GridError::OutOfBounds);
        }
        let i = self.pos_to_index(p);
        Ok(self.current[i].0)
    }

    /// The staged next state of the cell at `p`.
    pub fn get_next(&self, p: Position) -> (r: Result<CellState, GridError>)
        requires
            self.wf(),
        ensures
            self.in_bounds(p.x as int, p.y as int) ==> r == Ok::<CellState, GridError>(
                self.next_at(p.x as int, p.y as int),
            ),
            !self.in_bounds(p.x as int, p.y as int) ==> r == Err::<CellState, GridError>(
                GridError::OutOfBounds,
            ),
    {
        if !self.inside(p) {
            return Err(GridError::OutOfBounds);
        }
        let i = self.pos_to_index(p);
        Ok(self.next[i].0)
    }

    /// Overwrites the current state at `p` directly, leaving the staged
    /// state alone.  Used at initialization and by the commit path, never
    /// by edit logic, which stages through `set_next`.
    pub fn set(&mut self, p: Position, s: CellState) -> (r: Result<(), GridError>)
        requires
            old(self).wf(),
        ensures
            final(self).wf(),
            final(self).width == old(self).width,
            final(self).height == old(self).height,
            old(self).in_bounds(p.x as int, p.y as int) ==> {
                &&& r == Ok::<(), GridError>(())
                &&& final(self).cur_at(p.x as int, p.y as int) == s
                &&& forall|x: int, y: int|
                    old(self).in_bounds(x, y) && !(x == p.x as int && y == p.y as int)
                        ==> final(self).cur_at(x, y) == old(self).cur_at(x, y)
                &&& forall|x: int, y: int|
                    old(self).in_bounds(x, y) ==> final(self).next_at(x, y) == old(
                        self,
                    ).next_at(x, y)
            },
            !old(self).in_bounds(p.x as int, p.y as int) ==> r == Err::<(), GridError>(
                GridError::OutOfBounds,
            ) && *final(self) == *old(self),
    {
        if !self.inside(p) {
            return Err(GridError::OutOfBounds);
        }
        let i = self.pos_to_index(p);
        self.current.set(i, CurrentState(s));
        proof {
            assert forall|x: int, y: int|
                old(self).in_bounds(x, y) && !(x == p.x as int && y == p.y as int) implies self
                .cur_at(x, y) == old(self).cur_at(x, y) by {
                lemma_index_bounds(self.width as int, self.height as int, x, y);
                lemma_index_injective(self.width as int, x, y, p.x as int, p.y as int);
            }
        }
        Ok(())
    }

    /// Stages a future state for the cell at `p`; `get` is unaffected
    /// until the next `commit`.
    pub fn set_next(&mut self, p: Position, s: CellState) -> (r: Result<(), GridError>)
        requires
            old(self).wf(),
        ensures
            final(self).wf(),
            final(self).width == old(self).width,
            final(self).height == old(self).height,
            old(self).in_bounds(p.x as int, p.y as int) ==> {
                &&& r == Ok::<(), GridError>(())
                &&& final(self).next_at(p.x as int, p.y as int) == s
                &&& forall|x: int, y: int|
                    old(self).in_bounds(x, y) && !(x == p.x as int && y == p.y as int)
                        ==> final(self).next_at(x, y) == old(self).next_at(x, y)
                &&& forall|x: int, y: int|
                    old(self).in_bounds(x, y) ==> final(self).cur_at(x, y) == old(
                        self,
                    ).cur_at(x, y)
            },
            !old(self).in_bounds(p.x as int, p.y as int) ==> r == Err::<(), GridError>(
                GridError::OutOfBounds,
            ) && *final(self) == *old(self),
    {
        if !self.inside(p) {
            return Err(GridError::OutOfBounds);
        }
        let i = self.pos_to_index(p);
        self.next.set(i, NextState(s));
        proof {
            assert forall|x: int, y: int|
                old(self).in_bounds(x, y) && !(x == p.x as int && y == p.y as int) implies self
                .next_at(x, y) == old(self).next_at(x, y) by {
                lemma_index_bounds(self.width as int, self.height as int, x, y);
                lemma_index_injective(self.width as int, x, y, p.x as int, p.y as int);
            }
        }
        Ok(())
    }

    /// Commits the staged states: every cell's current state becomes its
    /// staged state, and the coordinates whose visible state actually
    /// changed come back in row-major order (strictly increasing, so free
    /// of duplicates), for the presentation layer to repaint only those.
    pub fn commit(&mut self) -> (changed: Vec<Position>)
        requires
            old(self).wf(),
        ensures
            final(self).wf(),
            final(self).width == old(self).width,
            final(self).height == old(self).height,
            forall|x: int, y: int|
                old(self).in_bounds(x, y) ==> final(self).cur_at(x, y) == old(self).next_at(x, y)
                    && final(self).next_at(x, y) == old(self).next_at(x, y),
            forall|k: int|
                0 <= k < changed@.len() ==> old(self).in_bounds(
                    changed@[k].x as int,
                    changed@[k].y as int,
                ) && old(self).cur_at(changed@[k].x as int, changed@[k].y as int) != old(
                    self,
                ).next_at(changed@[k].x as int, changed@[k].y as int),
            forall|x: int, y: int|
                old(self).in_bounds(x, y) && old(self).cur_at(x, y) != old(self).next_at(x, y)
                    ==> changed@.contains(Position { x: x as i32, y: y as i32 }),
            forall|k1: int, k2: int|
                0 <= k1 < k2 < changed@.len() ==> pos_row_major_lt(changed@[k1], changed@[k2]),
    {
        let ghost m0 = *self;
        let mut changed: Vec<Position> = Vec::new();
        let mut y: usize = 0;
        while y < self.height
            invariant
                self.wf(),
                m0.wf(),
                self.width == m0.width,
                self.height == m0.height,
                0 <= y <= self.height,
                forall|i: int, j: int|
                    m0.in_bounds(i, j) ==> self.next_at(i, j) == m0.next_at(i, j),
                forall|i: int, j: int|
                    m0.in_bounds(i, j) && j < y ==> self.cur_at(i, j) == m0.next_at(i, j),
                forall|i: int, j: int|
                    m0.in_bounds(i, j) && j >= y ==> self.cur_at(i, j) == m0.cur_at(i, j),
                forall|k: int|
                    0 <= k < changed@.len() ==> m0.in_bounds(
                        changed@[k].x as int,
                        changed@[k].y as int,
                    ) && changed@[k].y < y && m0.cur_at(
                        changed@[k].x as int,
                        changed@[k].y as int,
                    ) != m0.next_at(changed@[k].x as int, changed@[k].y as int),
                forall|i: int, j: int|
                    m0.in_bounds(i, j) && j < y && m0.cur_at(i, j) != m0.next_at(i, j)
                        ==> changed@.contains(Position { x: i as i32, y: j as i32 }),
                forall|k1: int, k2: int|
                    0 <= k1 < k2 < changed@.len() ==> pos_row_major_lt(changed@[k1], changed@[k2]),
            decreases self.height - y,
        {
            let mut x: usize = 0;
            while x < self.width
                invariant
                    self.wf(),
                    m0.wf(),
                    self.width == m0.width,
                    self.height == m0.height,
                    0 <= y < self.height,
                    0 <= x <= self.width,
                    forall|i: int, j: int|
                        m0.in_bounds(i, j) ==> self.next_at(i, j) == m0.next_at(i, j),
                    forall|i: int, j: int|
                        m0.in_bounds(i, j) && (j < y || (j == y && i < x)) ==> self.cur_at(i, j)
                            == m0.next_at(i, j),
                    forall|i: int, j: int|
                        m0.in_bounds(i, j) && (j > y || (j == y && i >= x)) ==> self.cur_at(i, j)
                            == m0.cur_at(i, j),
                    forall|k: int|
                        0 <= k < changed@.len() ==> m0.in_bounds(
                            changed@[k].x as int,
                            changed@[k].y as int,
                        ) && (changed@[k].y < y || (changed@[k].y == y && changed@[k].x < x))
                            && m0.cur_at(changed@[k].x as int, changed@[k].y as int) != m0.next_at(
                            changed@[k].x as int,
                            changed@[k].y as int,
                        ),
                    forall|i: int, j: int|
                        m0.in_bounds(i, j) && (j < y || (j == y && i < x)) && m0.cur_at(i, j)
                            != m0.next_at(i, j) ==> changed@.contains(
                            Position { x: i as i32, y: j as i32 },
                        ),
                    forall|k1: int, k2: int|
                        0 <= k1 < k2 < changed@.len() ==> pos_row_major_lt(
                            changed@[k1],
                            changed@[k2],
                        ),
                decreases self.width - x,
            {
                let p = Position { x: x as i32, y: y as i32 };
                let i = self.pos_to_index(p);
                let cur = self.current[i].0;
                let nxt = self.next[i].0;
                proof {
                    assert(m0.cur_at(x as int, y as int) == cur);
                    assert(m0.next_at(x as int, y as int) == nxt);
                }
                if cur != nxt {
                    let ghost before = *self;
                    let ghost changed_pre = changed@;
                    self.current.set(i, CurrentState(nxt));
                    changed.push(p);
                    proof {
                        assert forall|i2: int, j2: int|
                            m0.in_bounds(i2, j2) && !(i2 == x as int && j2
                                == y as int) implies self.cur_at(i2, j2) == before.cur_at(
                            i2,
                            j2,
                        ) by {
                            lemma_index_bounds(self.width as int, self.height as int, i2, j2);
                            lemma_index_injective(self.width as int, i2, j2, x as int, y as int);
                        }
                        assert(self.cur_at(x as int, y as int) == nxt);
                        assert(changed@[changed@.len() - 1] == p);
                        assert forall|q: Position| changed_pre.contains(q) implies changed@.contains(
                            q,
                        ) by {
                            let k = choose|k: int|
                                0 <= k < changed_pre.len() && changed_pre[k] == q;
                            assert(changed@[k] == q);
                        }
                    }
                }
                x = x + 1;
            }
            y = y + 1;
        }
        changed
    }
}

/// A grid within the supported extent has a cell count that fits
/// comfortably in a machine word.
pub proof fn lemma_grid_cells_bound(w: int, h: int)
    by (nonlinear_arith)
    requires
        0 <= w <= GRID_SIZE,
        0 <= h <= GRID_SIZE,
    ensures
        w * h <= GRID_SIZE * GRID_SIZE,
{
}

/// An in-bounds coordinate's row-major index lies within the buffer.
pub proof fn lemma_index_bounds(w: int, h: int, x: int, y: int)
    by (nonlinear_arith)
    requires
        0 <= x < w,
        0 <= y < h,
    ensures
        0 <= y * w + x < w * h,
{
}

/// Distinct in-bounds coordinates have distinct row-major indices.
pub proof fn lemma_index_injective(w: int, x1: int, y1: int, x2: int, y2: int)
    by (nonlinear_arith)
    requires
        0 <= x1 < w,
        0 <= x2 < w,
        0 <= y1,
        0 <= y2,
    ensures
        y1 * w + x1 == y2 * w + x2 ==> x1 == x2 && y1 == y2,
{
}

/// A row-major index splits back into an in-bounds coordinate.
pub proof fn lemma_index_split(w: int, h: int, i: int)
    by (nonlinear_arith)
    requires
        1 <= w,
        1 <= h,
        0 <= i < w * h,
    ensures
        0 <= i % w < w,
        0 <= i / w < h,
        (i / w) * w + (i % w) == i,
{
}

} // verus!
