use vstd::prelude::*;

verus! {

/// The sign of the cross product `(p1 - p0) x (p2 - p0)` of three points: negative
/// when `p2` lies to the right of the directed line `p0 -> p1`, positive when it lies
/// to the left, zero when the three are collinear (coincident points included).
#[derive(Debug, Clone, Copy, PartialEq, Eq, Structural)]
pub enum Sign {
    Negative,
    Zero,
    Positive,
}

/// The convexity gate over the turn signs of a vertex ring: `turns[i]` is the sign at
/// the triple that starts at vertex `i`. It passes when there are at least three
/// vertices and no turn is negative; collinear turns are accepted.
pub open spec fn convex_turns(turns: Seq<Sign>) -> bool {
    turns.len() >= 3 && forall|i: int| 0 <= i < turns.len() ==> turns[i] != Sign::Negative
}

/// Decides the convexity gate from the turn signs of a vertex ring, one per vertex.
pub fn check_polygon_is_convex(turns: &Vec<Sign>) -> (r: bool)
    ensures
        r == convex_turns(turns@),
{
    let n = turns.len();
    if n < 3 {
        return false;
    }
    let mut i: usize = 0;
    while i < n
        invariant
            n == turns@.len(),
            i <= n,
            forall|j: int| 0 <= j < i ==> turns@[j] != Sign::Negative,
        decreases n - i,
    {
        if turns[i] == Sign::Negative {
            return false;
        }
        i = i + 1;
    }
    true
}

} // verus!
