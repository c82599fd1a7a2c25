use vstd::prelude::*;

verus! {

/// A point of the movement lattice.
#[derive(PartialEq, Eq, Structural, Debug, Copy, Clone)]
pub struct GridPos {
    pub x: i32,
    pub y: i32,
}

/// `a` and `b` are one king step apart: each offset is in {-1, 0, 1} and
/// they are not the same point.
pub open spec fn adjacent(a: GridPos, b: GridPos) -> bool {
    let dx = a.x - b.x;
    let dy = a.y - b.y;
    &&& -1 <= dx <= 1
    &&& -1 <= dy <= 1
    &&& !(dx == 0 && dy == 0)
}

/// `a` lies in the 3x3 block centred on `b`.
pub open spec fn adjacent_or_equal(a: GridPos, b: GridPos) -> bool {
    a == b || adjacent(a, b)
}

impl GridPos {
    /// True iff `other` is one of the eight cells around `self`.
    pub fn is_adjacent(&self, other: GridPos) -> (r: bool)
        ensures
            r == adjacent(*self, other),
    {
        let dx: i64 = self.x as i64 - other.x as i64;
        let dy: i64 = self.y as i64 - other.y as i64;
        if dx == 1 || dx == -1 {
            dy == 1 || dy == -1 || dy == 0
        } else if dx == 0 {
            dy == 1 || dy == -1
        } else {
            false
        }
    }

    /// True iff `other` is `self` or one of the eight cells around it.
    pub fn is_adjacent_or_equal(&self, other: GridPos) -> (r: bool)
        ensures
            r == adjacent_or_equal(*self, other),
    {
        *self == other || self.is_adjacent(other)
    }
}

/// No point is adjacent to itself.
pub proof fn lemma_adjacent_irreflexive(p: GridPos)
    ensures
        !adjacent(p, p),
        adjacent_or_equal(p, p),
{
}

/// Adjacency does not depend on the order of its arguments.
pub proof fn lemma_adjacent_symmetric(p: GridPos, q: GridPos)
    ensures
        adjacent(p, q) == adjacent(q, p),
        adjacent_or_equal(p, q) == adjacent_or_equal(q, p),
{
}

} // verus!
