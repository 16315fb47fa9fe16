//! The bounding box of a set of positions.

use vstd::prelude::*;

verus! {

/// The smallest axis-parallel box that holds a set of positions.
#[derive(Debug, Clone, Copy, PartialEq, Eq)]
pub struct Extent {
    pub min_x: i64,
    pub max_x: i64,
    pub min_y: i64,
    pub max_y: i64,
}

impl Extent {
    /// The box holds the position `p`.
    pub open spec fn holds(self, p: (i64, i64)) -> bool {
        self.min_x <= p.0 <= self.max_x && self.min_y <= p.1 <= self.max_y
    }

    /// The box is the bounding box of `coords`: it holds every position, and
    /// each of its four sides passes through one of them.
    pub open spec fn bounds(self, coords: Seq<(i64, i64)>) -> bool {
        &&& forall|i: int| 0 <= i < coords.len() ==> self.holds(#[trigger] coords[i])
        &&& exists|i: int| 0 <= i < coords.len() && (#[trigger] coords[i]).0 == self.min_x
        &&& exists|i: int| 0 <= i < coords.len() && (#[trigger] coords[i]).0 == self.max_x
        &&& exists|i: int| 0 <= i < coords.len() && (#[trigger] coords[i]).1 == self.min_y
        &&& exists|i: int| 0 <= i < coords.len() && (#[trigger] coords[i]).1 == self.max_y
    }
}

/// Computes the bounding box of `coords`, which must not be empty: no box
/// bounds an empty set.
pub fn calc_extent(coords: &[(i64, i64)]) -> (extent: Extent)
    requires
        coords@.len() > 0,
    ensures
        extent.bounds(coords@),
        extent.min_x <= extent.max_x,
        extent.min_y <= extent.max_y,
{
    let first = coords[0];
    let mut extent = Extent { min_x: first.0, max_x: first.0, min_y: first.1, max_y: first.1 };
    let mut i: usize = 1;
    assert(coords@.take(1)[0] == first);
    while i < coords.len()
        invariant
            1 <= i <= coords@.len(),
            extent.bounds(coords@.take(i as int)),
        decreases coords@.len() - i,
    {
        let ghost seen = coords@.take(i as int);
        let ghost before = extent;
        let p = coords[i];
        if p.0 < extent.min_x {
            extent.min_x = p.0;
        }
        if p.0 > extent.max_x {
            extent.max_x = p.0;
        }
        if p.1 < extent.min_y {
            extent.min_y = p.1;
        }
        if p.1 > extent.max_y {
            extent.max_y = p.1;
        }
        proof {
            let next = coords@.take(i + 1);
            assert(next[i as int] == p);
            assert forall|j: int| 0 <= j < next.len() implies extent.holds(#[trigger] next[j]) by {
                if j < i {
                    assert(before.holds(seen[j]));
                }
            }
            let a = choose|j: int| 0 <= j < seen.len() && (#[trigger] seen[j]).0 == before.min_x;
            let b = choose|j: int| 0 <= j < seen.len() && (#[trigger] seen[j]).0 == before.max_x;
            let c = choose|j: int| 0 <= j < seen.len() && (#[trigger] seen[j]).1 == before.min_y;
            let d = choose|j: int| 0 <= j < seen.len() && (#[trigger] seen[j]).1 == before.max_y;
            assert(next[a] == seen[a] && next[b] == seen[b] && next[c] == seen[c] && next[d]
                == seen[d]);
        }
        i += 1;
    }
    assert(coords@.take(i as int) =~= coords@);
    extent
}

/// A set of positions has one bounding box only.
pub proof fn lemma_bounds_are_unique(coords: Seq<(i64, i64)>, a: Extent, b: Extent)
    requires
        a.bounds(coords),
        b.bounds(coords),
    ensures
        a == b,
{
    let i = choose|i: int| 0 <= i < coords.len() && (#[trigger] coords[i]).0 == a.min_x;
    assert(b.holds(coords[i]));
    let i = choose|i: int| 0 <= i < coords.len() && (#[trigger] coords[i]).0 == b.min_x;
    assert(a.holds(coords[i]));
    let i = choose|i: int| 0 <= i < coords.len() && (#[trigger] coords[i]).0 == a.max_x;
    assert(b.holds(coords[i]));
    let i = choose|i: int| 0 <= i < coords.len() && (#[trigger] coords[i]).0 == b.max_x;
    assert(a.holds(coords[i]));
    let i = choose|i: int| 0 <= i < coords.len() && (#[trigger] coords[i]).1 == a.min_y;
    assert(b.holds(coords[i]));
    let i = choose|i: int| 0 <= i < coords.len() && (#[trigger] coords[i]).1 == b.min_y;
    assert(a.holds(coords[i]));
    let i = choose|i: int| 0 <= i < coords.len() && (#[trigger] coords[i]).1 == a.max_y;
    assert(b.holds(coords[i]));
    let i = choose|i: int| 0 <= i < coords.len() && (#[trigger] coords[i]).1 == b.max_y;
    assert(a.holds(coords[i]));
}

} // verus!
