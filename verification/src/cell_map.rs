//! Dense map from grid coordinates to optional presentation handles.

use vstd::prelude::*;
use crate::position::Position;
use crate::state_map::{GridError, GRID_SIZE};
use crate::state_map::{lemma_grid_cells_bound, lemma_index_bounds, lemma_index_injective,
    lemma_index_split};

verus! {

/// A dense coordinate-to-handle map.  The host runtime backs each live
/// cell with a presentation resource; this map records, per cell, whether
/// such a resource exists and under which handle, with "no resource" held
/// as an explicit `None` rather than a reserved sentinel handle value.
pub struct CellMap {
    /// The handle slots, row-major.
    pub vec: Vec<Option<u64>>,
    /// The grid extent along `x`.
    pub width: usize,
    /// The grid extent along `y`.
    pub height: usize,
}

impl CellMap {
    /// Well-formedness: one slot per cell, extent within the supported
    /// maximum.
    pub open spec fn wf(self) -> bool {
        &&& 1 <= self.width <= GRID_SIZE
        &&& 1 <= self.height <= GRID_SIZE
        &&& self.vec@.len() == self.width * self.height
    }

    /// Whether `(x, y)` lies on the grid.
    pub open spec fn in_bounds(self, x: int, y: int) -> bool {
        0 <= x < self.width && 0 <= y < self.height
    }

    /// The handle slot of the cell at `(x, y)`.
    pub open spec fn handle_at(self, x: int, y: int) -> Option<u64> {
        self.vec@[y * self.width + x]
    }

    /// Allocates a `width` by `height` map with every slot unoccupied.
    pub fn new(width: i32, height: i32) -> (r: CellMap)
        requires
            1 <= width <= GRID_SIZE,
            1 <= height <= GRID_SIZE,
        ensures
            r.wf(),
            r.width == width,
            r.height == height,
            forall|x: int, y: int| r.in_bounds(x, y) ==> r.handle_at(x, y) is None,
    {
        let w = width as usize;
        let h = height as usize;
        proof {
            lemma_grid_cells_bound(w as int, h as int);
        }
        let n = w * h;
        let mut vec: Vec<Option<u64>> = Vec::new();
        let mut i: usize = 0;
        while i < n
            invariant
                i <= n,
                vec@.len() == i,
                forall|k: int| 0 <= k < i ==> vec@[k] is None,
            decreases n - i,
        {
            vec.push(None);
            i = i + 1;
        }
        let r = CellMap { vec, width: w, height: h };
        proof {
            assert forall|x: int, y: int| r.in_bounds(x, y) implies r.handle_at(x, y) is None by {
                lemma_index_bounds(w as int, h as int, x, y);
            }
        }
        r
    }

    /// Pure bounds predicate.
    pub fn inside(&self, p: Position) -> (r: bool)
        ensures
            r == self.in_bounds(p.x as int, p.y as int),
    {
        p.x >= 0 && p.y >= 0 && (p.x as usize) < self.width && (p.y as usize) < self.height
    }

    /// The row-major slot index of an in-bounds coordinate.
    pub fn pos_to_index(&self, p: Position) -> (i: usize)
        requires
            self.wf(),
            self.in_bounds(p.x as int, p.y as int),
        ensures
            i == p.y * self.width + p.x,
            i < self.width * self.height,
    {
        proof {
            lemma_index_bounds(self.width as int, self.height as int, p.x as int, p.y as int);
            lemma_grid_cells_bound(self.width as int, self.height as int);
        }
        (p.y as usize) * self.width + (p.x as usize)
    }

    /// The coordinate of a row-major slot index.
    pub fn index_to_pos(&self, i: usize) -> (p: Position)
        requires
            self.wf(),
            i < self.width * self.height,
        ensures
            p.x == (i as int) % (self.width as int),
            p.y == (i as int) / (self.width as int),
            self.in_bounds(p.x as int, p.y as int),
            i == p.y * self.width + p.x,
    {
        proof {
            lemma_index_split(self.width as int, self.height as int, i as int);
        }
        Position { x: (i % self.width) as i32, y: (i / self.width) as i32 }
    }

    /// Whether the cell at `p` has no backing resource.  A coordinate off
    /// the grid counts as empty.
    pub fn is_empty(&self, p: Position) -> (r: bool)
        requires
            self.wf(),
        ensures
            r == !(self.in_bounds(p.x as int, p.y as int) && self.handle_at(
                p.x as int,
                p.y as int,
            ) is Some),
    {
        self.get(p).is_none()
    }

    /// The handle backing the cell at `p`, or `None` for an unbacked cell
    /// or a coordinate off the grid.
    pub fn get(&self, p: Position) -> (r: Option<u64>)
        requires
            self.wf(),
        ensures
            self.in_bounds(p.x as int, p.y as int) ==> r == self.handle_at(p.x as int, p.y as int),
            !self.in_bounds(p.x as int, p.y as int) ==> r is None,
    {
        if !self.inside(p) {
            return None;
        }
        let i = self.pos_to_index(p);
        self.vec[i]
    }

    /// Records `e` as the handle backing the cell at `p`.
    pub fn set(&mut self, p: Position, e: u64) -> (r: Result<(), GridError>)
        requires
            old(self).wf(),
        ensures
            final(self).wf(),
            final(self).width == old(self).width,
            final(self).height == old(self).height,
            old(self).in_bounds(p.x as int, p.y as int) ==> {
                &&& r == Ok::<(), GridError>(())
                &&& final(self).handle_at(p.x as int, p.y as int) == Some(e)
                &&& forall|x: int, y: int|
                    old(self).in_bounds(x, y) && !(x == p.x as int && y == p.y as int)
                        ==> final(self).handle_at(x, y) == old(self).handle_at(x, y)
            },
            !old(self).in_bounds(p.x as int, p.y as int) ==> r == Err::<(), GridError>(
                GridError::OutOfBounds,
            ) && *final(self) == *old(self),
    {
        if !self.inside(p) {
            return Err(GridError::OutOfBounds);
        }
        let i = self.pos_to_index(p);
        self.vec.set(i, Some(e));
        proof {
            assert forall|x: int, y: int|
                old(self).in_bounds(x, y) && !(x == p.x as int && y == p.y as int) implies self
                .handle_at(x, y) == old(self).handle_at(x, y) by {
                lemma_index_bounds(self.width as int, self.height as int, x, y);
                lemma_index_injective(self.width as int, x, y, p.x as int, p.y as int);
            }
        }
        Ok(())
    }

    /// Clears the handle slot at `p` and hands back whatever was in it.
    pub fn remove(&mut self, p: Position) -> (r: Option<u64>)
        requires
            old(self).wf(),
        ensures
            final(self).wf(),
            final(self).width == old(self).width,
            final(self).height == old(self).height,
            old(self).in_bounds(p.x as int, p.y as int) ==> {
                &&& r == old(self).handle_at(p.x as int, p.y as int)
                &&& final(self).handle_at(p.x as int, p.y as int) is None
                &&& forall|x: int, y: int|
                    old(self).in_bounds(x, y) && !(x == p.x as int && y == p.y as int)
                        ==> final(self).handle_at(x, y) == old(self).handle_at(x, y)
            },
            !old(self).in_bounds(p.x as int, p.y as int) ==> r is None && *final(self) == *old(
                self,
            ),
    {
        if !self.inside(p) {
            return None;
        }
        let i = self.pos_to_index(p);
        let r = self.vec[i];
        self.vec.set(i, None);
        proof {
            assert forall|x: int, y: int|
                old(self).in_bounds(x, y) && !(x == p.x as int && y == p.y as int) implies self
                .handle_at(x, y) == old(self).handle_at(x, y) by {
                lemma_index_bounds(self.width as int, self.height as int, x, y);
                lemma_index_injective(self.width as int, x, y, p.x as int, p.y as int);
            }
        }
        r
    }
}

} // verus!
