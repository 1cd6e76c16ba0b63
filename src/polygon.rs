use vstd::prelude::*;

use crate::dedup::{dedup_spec, dedup_vertices};
use crate::error::GeometryError;
use crate::orient::{check_polygon_is_convex, convex_turns, Sign};

verus! {

/// What construction keeps of a raw vertex list: the raw list must pass the convexity
/// gate, and only then are repeated points dropped.
pub open spec fn admitted_spec<P>(vertices: Seq<P>, turns: Seq<Sign>, keys: Seq<u64>) -> Result<
    Seq<P>,
    GeometryError,
> {
    if convex_turns(turns) {
        Ok(dedup_spec(vertices, keys))
    } else {
        Err(GeometryError::NotConvex)
    }
}

/// The first step of building a convex polygon: applies the convexity gate to the raw
/// list (`turns[i]` is the turn at the triple starting at vertex `i`, `keys[i]`
/// identifies vertex `i`), then drops every vertex equal to an earlier one. Convexity
/// is decided on the list as given, repeats included, so coincident or collinear
/// vertices pass and may leave fewer than three.
pub fn admit_vertices<P: Copy>(vertices: &Vec<P>, turns: &Vec<Sign>, keys: &Vec<u64>) -> (r: Result<
    Vec<P>,
    GeometryError,
>)
    requires
        keys@.len() == vertices@.len(),
        turns@.len() == vertices@.len(),
    ensures
        match (r, admitted_spec(vertices@, turns@, keys@)) {
            (Ok(v), Ok(s)) => v@ == s,
            (Err(e), Err(f)) => e == f,
            _ => false,
        },
{
    if !check_polygon_is_convex(turns) {
        return Err(GeometryError::NotConvex);
    }
    Ok(dedup_vertices(vertices, keys))
}

/// A vertex list of fewer than three points never passes the convexity gate, so
/// building a polygon from it directly is refused.
pub proof fn lemma_short_list_refused<P>(vertices: Seq<P>, turns: Seq<Sign>, keys: Seq<u64>)
    requires
        turns.len() == vertices.len(),
        vertices.len() < 3,
    ensures
        !convex_turns(turns),
        admitted_spec(vertices, turns, keys) == Err::<Seq<P>, GeometryError>(GeometryError::NotConvex),
{
}

/// Dropping repeats from `n` copies of one point leaves that point once.
proof fn lemma_dedup_copies<P>(p: P, key: u64, n: nat)
    requires
        n >= 1,
    ensures
        dedup_spec(Seq::new(n, |i: int| p), Seq::new(n, |i: int| key)) == seq![p],
    decreases n,
{
    let items = Seq::new(n, |i: int| p);
    let keys = Seq::new(n, |i: int| key);
    if n == 1 {
        assert(items.drop_last() =~= Seq::<P>::empty());
        assert(dedup_spec(items.drop_last(), keys.drop_last()) == Seq::<P>::empty());
        assert(!keys.drop_last().contains(keys.last()));
        assert(seq![].push(p) =~= seq![p]);
    } else {
        assert(items.drop_last() =~= Seq::new((n - 1) as nat, |i: int| p));
        assert(keys.drop_last() =~= Seq::new((n - 1) as nat, |i: int| key));
        lemma_dedup_copies(p, key, (n - 1) as nat);
        assert(keys.drop_last()[0] == key);
    }
}

/// Three or more copies of one vertex, all turns collinear, are accepted and collapse
/// to that one vertex: convexity is decided before repeats are dropped, so a
/// degenerate polygon can still be built this way.
pub proof fn lemma_coincident_list_admitted<P>(p: P, key: u64, n: nat)
    requires
        n >= 3,
    ensures
        admitted_spec(
            Seq::new(n, |i: int| p),
            Seq::new(n, |i: int| Sign::Zero),
            Seq::new(n, |i: int| key),
        ) == Ok::<Seq<P>, GeometryError>(seq![p]),
{
    lemma_dedup_copies(p, key, n);
}

} // verus!
