//! The per-tick state transition engine: the fixed Wireworld rule.

use vstd::prelude::*;
use crate::cell_state::CellState;
use crate::direction::Direction;
use crate::position::Position;
use crate::state_map::StateMap;

verus! {

/// Whether the cell at `(x, y)` currently shows `Head`.  A coordinate off
/// the grid never counts as a head.
pub open spec fn head_at(m: StateMap, x: int, y: int) -> bool {
    m.in_bounds(x, y) && m.cur_at(x, y) == CellState::Head
}

/// The number of `Head` cells among the neighbors in the first `k`
/// directions of the clockwise enumeration.
pub open spec fn head_neighbours_upto(m: StateMap, x: int, y: int, k: nat) -> nat
    decreases k,
{
    if k == 0 {
        0
    } else {
        let d = Direction::spec_from_index(k - 1);
        head_neighbours_upto(m, x, y, (k - 1) as nat) + if head_at(
            m,
            x + d.spec_vec().x,
            y + d.spec_vec().y,
        ) {
            1nat
        } else {
            0nat
        }
    }
}

/// The number of `Head` cells among the up-to-eight neighbors at unit
/// Chebyshev distance of `(x, y)`, read from the current-state buffer.
pub open spec fn head_neighbours(m: StateMap, x: int, y: int) -> nat {
    head_neighbours_upto(m, x, y, 8)
}

/// The fixed Wireworld rule: what a cell showing `s` with `heads` current
/// `Head` neighbors shows after the tick.
pub open spec fn spec_transition(s: CellState, heads: nat) -> CellState {
    match s {
        CellState::Empty => CellState::Empty,
        CellState::Head => CellState::Tail,
        CellState::Tail => CellState::Conductor,
        CellState::Conductor => if heads == 1 || heads == 2 {
            CellState::Head
        } else {
            CellState::Conductor
        },
    }
}

/// Computes the Wireworld rule for one cell.
pub fn transition(s: CellState, heads: usize) -> (r: CellState)
    ensures
        r == spec_transition(s, heads as nat),
{
    match s {
        CellState::Empty => CellState::Empty,
        CellState::Head => CellState::Tail,
        CellState::Tail => CellState::Conductor,
        CellState::Conductor => {
            if heads == 1 || heads == 2 {
                CellState::Head
            } else {
                CellState::Conductor
            }
        },
    }
}

/// Counts the `Head` neighbors of the in-bounds cell at `p`, reading only
/// the current-state buffer; neighbors off the grid count as `Empty`.
pub fn count_head_neighbours(m: &StateMap, p: Position) -> (n: usize)
    requires
        m.wf(),
        m.in_bounds(p.x as int, p.y as int),
    ensures
        n == head_neighbours(*m, p.x as int, p.y as int),
        n <= 8,
{
    let mut n: usize = 0;
    let mut d: usize = 0;
    while d < 8
        invariant
            m.wf(),
            m.in_bounds(p.x as int, p.y as int),
            d <= 8,
            n <= d,
            n == head_neighbours_upto(*m, p.x as int, p.y as int, d as nat),
        decreases 8 - d,
    {
        let dir = Direction::from_index(d);
        let off = dir.vec();
        let q = Position { x: p.x + off.x, y: p.y + off.y };
        match m.get(q) {
            Ok(s) => {
                if s == CellState::Head {
                    n = n + 1;
                }
            },
            Err(_) => {},
        }
        d = d + 1;
    }
    n
}

/// Two grids with the same extent and the same current states have the
/// same neighbor head counts in the first `k` directions.
proof fn lemma_head_neighbours_upto_agree(m1: StateMap, m2: StateMap, x: int, y: int, k: nat)
    requires
        m1.width == m2.width,
        m1.height == m2.height,
        forall|i: int, j: int| m1.in_bounds(i, j) ==> m1.cur_at(i, j) == m2.cur_at(i, j),
        k <= 8,
    ensures
        head_neighbours_upto(m1, x, y, k) == head_neighbours_upto(m2, x, y, k),
    decreases k,
{
    if k > 0 {
        lemma_head_neighbours_upto_agree(m1, m2, x, y, (k - 1) as nat);
        let d = Direction::spec_from_index(k - 1);
        let qx = x + d.spec_vec().x;
        let qy = y + d.spec_vec().y;
        assert(head_at(m1, qx, qy) == head_at(m2, qx, qy));
    }
}

/// Neighbor head counts depend only on the grid extent and the
/// current-state buffer, never on the staged states.
pub proof fn lemma_head_neighbours_agree(m1: StateMap, m2: StateMap, x: int, y: int)
    requires
        m1.width == m2.width,
        m1.height == m2.height,
        forall|i: int, j: int| m1.in_bounds(i, j) ==> m1.cur_at(i, j) == m2.cur_at(i, j),
    ensures
        head_neighbours(m1, x, y) == head_neighbours(m2, x, y),
{
    lemma_head_neighbours_upto_agree(m1, m2, x, y, 8);
}

/// Runs one tick of the automaton: stages, for every cell, the state the
/// rule assigns it, computed exclusively from the pre-tick current-state
/// snapshot (same-tick writes are never observed by neighbor reads).  The
/// visible states are untouched until the next `commit`.
pub fn do_state(m: &mut StateMap)
    requires
        old(m).wf(),
    ensures
        final(m).wf(),
        final(m).width == old(m).width,
        final(m).height == old(m).height,
        forall|x: int, y: int|
            old(m).in_bounds(x, y) ==> final(m).cur_at(x, y) == old(m).cur_at(x, y),
        forall|x: int, y: int|
            old(m).in_bounds(x, y) ==> final(m).next_at(x, y) == spec_transition(
                old(m).cur_at(x, y),
                head_neighbours(*old(m), x, y),
            ),
{
    let ghost m0 = *m;
    let mut y: usize = 0;
    while y < m.height
        invariant
            m.wf(),
            m0.wf(),
            m.width == m0.width,
            m.height == m0.height,
            0 <= y <= m.height,
            forall|i: int, j: int| m0.in_bounds(i, j) ==> m.cur_at(i, j) == m0.cur_at(i, j),
            forall|i: int, j: int|
                m0.in_bounds(i, j) && j < y ==> m.next_at(i, j) == spec_transition(
                    m0.cur_at(i, j),
                    head_neighbours(m0, i, j),
                ),
        decreases m.height - y,
    {
        let mut x: usize = 0;
        while x < m.width
            invariant
                m.wf(),
                m0.wf(),
                m.width == m0.width,
                m.height == m0.height,
                0 <= y < m.height,
                0 <= x <= m.width,
                forall|i: int, j: int| m0.in_bounds(i, j) ==> m.cur_at(i, j) == m0.cur_at(i, j),
                forall|i: int, j: int|
                    m0.in_bounds(i, j) && (j < y || (j == y && i < x)) ==> m.next_at(i, j)
                        == spec_transition(m0.cur_at(i, j), head_neighbours(m0, i, j)),
            decreases m.width - x,
        {
            let p = Position { x: x as i32, y: y as i32 };
            let n = count_head_neighbours(m, p);
            proof {
                lemma_head_neighbours_agree(*m, m0, p.x as int, p.y as int);
            }
            let s = match m.get(p) {
                Ok(s) => s,
                Err(_) => CellState::Empty,
            };
            let t = transition(s, n);
            let _ = m.set_next(p, t);
            x = x + 1;
        }
        y = y + 1;
    }
}

/// The automaton never creates matter: an `Empty` cell stays `Empty`
/// under the rule, whatever its neighbors show.
pub proof fn lemma_empty_never_activates(heads: nat)
    ensures
        spec_transition(CellState::Empty, heads) == CellState::Empty,
{
}

/// An energized cell always cools: a `Head` becomes a `Tail` under the
/// rule, whatever its neighbors show.
pub proof fn lemma_head_becomes_tail(heads: nat)
    ensures
        spec_transition(CellState::Head, heads) == CellState::Tail,
{
}

/// A cooling cell always settles: a `Tail` becomes a `Conductor` under
/// the rule, whatever its neighbors show.
pub proof fn lemma_tail_becomes_conductor(heads: nat)
    ensures
        spec_transition(CellState::Tail, heads) == CellState::Conductor,
{
}

/// A `Conductor` ignites exactly when one or two of its neighbors are
/// heads, and stays a `Conductor` for every other count.
pub proof fn lemma_conductor_ignites_iff(heads: nat)
    ensures
        (spec_transition(CellState::Conductor, heads) == CellState::Head) <==> (heads == 1
            || heads == 2),
        !(heads == 1 || heads == 2) ==> spec_transition(CellState::Conductor, heads)
            == CellState::Conductor,
{
}

} // verus!
