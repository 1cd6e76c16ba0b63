use vstd::prelude::*;

use crate::cycle::ring_next;
use crate::orient::Sign;

verus! {

/// How one polygon edge `v1 -> v2` stands to a query point `p`.
#[derive(Debug, Clone, Copy, PartialEq, Eq, Structural)]
pub struct EdgeCrossing {
    /// `v1.y <= p.y`
    pub start_at_or_below: bool,
    /// `v2.y > p.y`
    pub end_above: bool,
    /// The side of the directed edge on which `p` lies.
    pub side: Sign,
}

/// What one edge adds to the winding number: one for an upward crossing with the point
/// strictly to its left, minus one for a downward crossing with the point strictly to
/// its right, nothing otherwise.
pub open spec fn crossing_step(e: EdgeCrossing) -> int {
    if e.start_at_or_below {
        if e.end_above && e.side == Sign::Positive {
            1
        } else {
            0
        }
    } else {
        if !e.end_above && e.side == Sign::Negative {
            -1
        } else {
            0
        }
    }
}

/// The winding number: the sum of the steps of all edges.
pub open spec fn winding_spec(edges: Seq<EdgeCrossing>) -> int
    decreases edges.len(),
{
    if edges.len() == 0 {
        0
    } else {
        winding_spec(edges.drop_last()) + crossing_step(edges.last())
    }
}

/// The winding number never exceeds the number of edges in size.
pub proof fn lemma_winding_bounded(edges: Seq<EdgeCrossing>)
    ensures
        -edges.len() <= winding_spec(edges) <= edges.len(),
    decreases edges.len(),
{
    if edges.len() > 0 {
        lemma_winding_bounded(edges.drop_last());
    }
}

/// The winding number of a polygon around a point, from how each edge stands to it.
pub fn winding_number(edges: &Vec<EdgeCrossing>) -> (r: i128)
    ensures
        r == winding_spec(edges@),
{
    let n = edges.len();
    let mut w: i128 = 0;
    let mut i: usize = 0;
    while i < n
        invariant
            n == edges@.len(),
            i <= n,
            w == winding_spec(edges@.subrange(0, i as int)),
        decreases n - i,
    {
        let ghost pre = edges@.subrange(0, i + 1);
        assert(pre.drop_last() =~= edges@.subrange(0, i as int));
        proof {
            lemma_winding_bounded(edges@.subrange(0, i as int));
        }
        let e = edges[i];
        if e.start_at_or_below {
            if e.end_above && e.side == Sign::Positive {
                w = w + 1;
            }
        } else {
            if !e.end_above && e.side == Sign::Negative {
                w = w - 1;
            }
        }
        i = i + 1;
    }
    assert(edges@.subrange(0, n as int) =~= edges@);
    w
}

/// Whether a polygon encloses a point: its winding number around the point is not zero.
pub fn is_point_inside(edges: &Vec<EdgeCrossing>) -> (r: bool)
    ensures
        r == (winding_spec(edges@) != 0),
{
    winding_number(edges) != 0
}

/// Whether the edges of a vertex ring were classified against one query height:
/// `at_or_below[i]` says that vertex `i` lies at or below the point, and edge `i` runs
/// from vertex `i` to the next one.
pub open spec fn classified_by_level(edges: Seq<EdgeCrossing>, at_or_below: Seq<bool>) -> bool {
    &&& edges.len() == at_or_below.len()
    &&& forall|i: int|
        0 <= i < edges.len() ==> (#[trigger] edges[i]).start_at_or_below == at_or_below[i]
            && edges[i].end_above == !at_or_below[ring_next(i, edges.len() as int)]
}

/// A point strictly below every vertex of a ring, or at or above every vertex, is not
/// enclosed: no edge crosses its height, so every edge adds nothing to the winding number.
pub proof fn lemma_level_outside(edges: Seq<EdgeCrossing>, at_or_below: Seq<bool>)
    requires
        classified_by_level(edges, at_or_below),
        (forall|i: int| 0 <= i < at_or_below.len() ==> at_or_below[i])
            || (forall|i: int| 0 <= i < at_or_below.len() ==> !at_or_below[i]),
    ensures
        winding_spec(edges) == 0,
{
    lemma_no_crossing_winds_zero(edges, at_or_below, edges.len() as int);
    assert(edges.subrange(0, edges.len() as int) =~= edges);
}

proof fn lemma_no_crossing_winds_zero(edges: Seq<EdgeCrossing>, at_or_below: Seq<bool>, k: int)
    requires
        classified_by_level(edges, at_or_below),
        (forall|i: int| 0 <= i < at_or_below.len() ==> at_or_below[i])
            || (forall|i: int| 0 <= i < at_or_below.len() ==> !at_or_below[i]),
        0 <= k <= edges.len(),
    ensures
        winding_spec(edges.subrange(0, k)) == 0,
    decreases k,
{
    if k > 0 {
        lemma_no_crossing_winds_zero(edges, at_or_below, k - 1);
        assert(edges.subrange(0, k).drop_last() =~= edges.subrange(0, k - 1));
        let e = edges[k - 1];
        assert(edges.subrange(0, k).last() == e);
        assert(e.start_at_or_below == !e.end_above);
        assert(crossing_step(e) == 0);
    }
}

} // verus!
