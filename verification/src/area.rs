//! Axis-aligned rectangular regions of grid coordinates.

use vstd::prelude::*;
use crate::position::Position;

verus! {

/// An axis-aligned rectangle over grid coordinates, held in normalized
/// form: `a` is the component-wise minimum corner and `b` the maximum.
/// Containment is inclusive of both corners.
#[derive(Debug, PartialEq, Eq, Structural, Clone, Copy)]
pub struct Area {
    pub a: Position,
    pub b: Position,
}

impl Area {
    /// The normalization invariant: `a` is component-wise at most `b`.
    pub open spec fn spec_wf(self) -> bool {
        self.a.x <= self.b.x && self.a.y <= self.b.y
    }

    /// Whether `p` lies inside the rectangle, corners included.
    pub open spec fn spec_contains(self, p: Position) -> bool {
        self.a.x <= p.x <= self.b.x && self.a.y <= p.y <= self.b.y
    }

    /// The normalized rectangle spanned by two arbitrary corners.
    pub open spec fn spec_new(a: Position, b: Position) -> Area {
        Area { a: a.spec_min(b), b: a.spec_max(b) }
    }

    /// The rectangle grown outward by `p`: a positive component moves the
    /// maximum corner out, a non-positive one moves the minimum corner out
    /// (by zero when the component is zero).
    pub open spec fn spec_grow(self, p: Position) -> Area {
        Area {
            a: Position {
                x: if p.x > 0 {
                    self.a.x
                } else {
                    (self.a.x + p.x) as i32
                },
                y: if p.y > 0 {
                    self.a.y
                } else {
                    (self.a.y + p.y) as i32
                },
            },
            b: Position {
                x: if p.x > 0 {
                    (self.b.x + p.x) as i32
                } else {
                    self.b.x
                },
                y: if p.y > 0 {
                    (self.b.y + p.y) as i32
                } else {
                    self.b.y
                },
            },
        }
    }

    /// The intersection of `self` with `c`, kept normalized: each corner is
    /// pulled inside `c`, so a disjoint pair yields a degenerate (empty in
    /// effect) but still well-formed rectangle instead of an inverted one.
    pub open spec fn spec_clamp(self, c: Area) -> Area {
        Area {
            a: self.a.spec_max(c.a).spec_min(c.b),
            b: self.b.spec_min(c.b).spec_max(c.a),
        }
    }

    /// Builds the normalized rectangle spanned by the two corners, in
    /// either order.
    pub fn new(a: Position, b: Position) -> (r: Area)
        ensures
            r == Area::spec_new(a, b),
            r.spec_wf(),
    {
        Area { a: a.min(b), b: a.max(b) }
    }

    /// Whether `p` lies inside the rectangle, corners included.
    pub fn contains(&self, p: Position) -> (r: bool)
        ensures
            r == self.spec_contains(p),
    {
        self.a.x <= p.x && self.a.y <= p.y && self.b.x >= p.x && self.b.y >= p.y
    }

    /// The component-wise extent `b - a`.  A single-point rectangle has
    /// size zero.
    pub fn size(&self) -> (r: Position)
        requires
            self.b.x - self.a.x <= i32::MAX,
            self.b.y - self.a.y <= i32::MAX,
            self.b.x - self.a.x >= i32::MIN,
            self.b.y - self.a.y >= i32::MIN,
        ensures
            r.x == self.b.x - self.a.x,
            r.y == self.b.y - self.a.y,
    {
        Position { x: self.b.x - self.a.x, y: self.b.y - self.a.y }
    }

    /// Grows the rectangle outward by `p`, the direction of each axis
    /// chosen by the sign of the component.  Growing keeps normalization.
    pub fn grow(&self, p: Position) -> (r: Area)
        requires
            p.x > 0 ==> self.b.x + p.x <= i32::MAX,
            p.x <= 0 ==> self.a.x + p.x >= i32::MIN,
            p.y > 0 ==> self.b.y + p.y <= i32::MAX,
            p.y <= 0 ==> self.a.y + p.y >= i32::MIN,
        ensures
            r == self.spec_grow(p),
            self.spec_wf() ==> r.spec_wf(),
    {
        let mut a = self.a;
        let mut b = self.b;
        if p.x > 0 {
            b.x = b.x + p.x;
        } else {
            a.x = a.x + p.x;
        }
        if p.y > 0 {
            b.y = b.y + p.y;
        } else {
            a.y = a.y + p.y;
        }
        Area { a, b }
    }

    /// Intersects the rectangle with `c`.  The result is always normalized,
    /// even when the two rectangles are disjoint; in that degenerate case
    /// the result contains no point of `c`'s interior beyond the collapsed
    /// edge and `contains` paired with the original rectangle filters it
    /// out (see `lemma_clamp_contains`).
    pub fn clamp(&self, c: Area) -> (r: Area)
        requires
            self.spec_wf(),
            c.spec_wf(),
        ensures
            r == self.spec_clamp(c),
            r.spec_wf(),
    {
        Area { a: self.a.max(c.a).min(c.b), b: self.b.min(c.b).max(c.a) }
    }
}

impl Default for Area {
    /// The single-point rectangle at the origin.
    fn default() -> (r: Area)
        ensures
            r.a.x == 0 && r.a.y == 0 && r.b.x == 0 && r.b.y == 0,
            r.spec_wf(),
    {
        Area { a: Position { x: 0, y: 0 }, b: Position { x: 0, y: 0 } }
    }
}

/// Clamping a well-formed rectangle against a well-formed bound always
/// yields a normalized rectangle, even for a disjoint pair.
pub proof fn lemma_clamp_normalized(r: Area, bound: Area)
    requires
        r.spec_wf(),
        bound.spec_wf(),
    ensures
        r.spec_clamp(bound).spec_wf(),
{
}

/// For a point inside the bound, membership in the clamped rectangle,
/// guarded by the degeneracy test `r.spec_contains(clamped.a)`, coincides
/// with membership in the original rectangle.
pub proof fn lemma_clamp_contains(r: Area, bound: Area, p: Position)
    requires
        r.spec_wf(),
        bound.spec_wf(),
        bound.spec_contains(p),
    ensures
        r.spec_contains(p) <==> (r.spec_contains(r.spec_clamp(bound).a)
            && r.spec_clamp(bound).spec_contains(p)),
{
}

/// Growing a single-point rectangle by one unit per axis yields a
/// rectangle of size one by one: only the maximum corner moves on a
/// positive delta.
pub proof fn lemma_grow_unit_size(p: Position)
    requires
        p.x < i32::MAX,
        p.y < i32::MAX,
    ensures
        (Area { a: p, b: p }).spec_grow(Position { x: 1, y: 1 }).b.x
            - (Area { a: p, b: p }).spec_grow(Position { x: 1, y: 1 }).a.x == 1,
        (Area { a: p, b: p }).spec_grow(Position { x: 1, y: 1 }).b.y
            - (Area { a: p, b: p }).spec_grow(Position { x: 1, y: 1 }).a.y == 1,
        (Area { a: p, b: p }).spec_grow(Position { x: 1, y: 1 }).a == p,
{
}

} // verus!
