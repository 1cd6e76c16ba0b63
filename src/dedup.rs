use vstd::prelude::*;

use crate::error::GeometryError;

verus! {

/// The items whose key did not occur earlier, in their original order. Two items are
/// the same point exactly when their keys are equal.
pub open spec fn dedup_spec<P>(items: Seq<P>, keys: Seq<u64>) -> Seq<P>
    decreases items.len(),
{
    if items.len() == 0 || keys.len() != items.len() {
        seq![]
    } else {
        let earlier = dedup_spec(items.drop_last(), keys.drop_last());
        if keys.drop_last().contains(keys.last()) {
            earlier
        } else {
            earlier.push(items.last())
        }
    }
}

/// Whether `k` occurs in `keys`, by a scan from the front.
fn key_seen(keys: &Vec<u64>, k: u64) -> (r: bool)
    ensures
        r == keys@.contains(k),
{
    let mut i: usize = 0;
    while i < keys.len()
        invariant
            i <= keys@.len(),
            forall|j: int| 0 <= j < i ==> keys@[j] != k,
        decreases keys@.len() - i,
    {
        if keys[i] == k {
            return true;
        }
        i = i + 1;
    }
    false
}

/// Removes repeated points, keeping the first occurrence of each and the order of
/// first occurrences. `keys[i]` identifies the point `vertices[i]`.
pub fn dedup_vertices<P: Copy>(vertices: &Vec<P>, keys: &Vec<u64>) -> (r: Vec<P>)
    requires
        keys@.len() == vertices@.len(),
    ensures
        r@ == dedup_spec(vertices@, keys@),
{
    let n = vertices.len();
    let mut r: Vec<P> = Vec::new();
    let mut seen: Vec<u64> = Vec::new();
    let mut i: usize = 0;
    while i < n
        invariant
            n == vertices@.len(),
            n == keys@.len(),
            i <= n,
            r@ == dedup_spec(vertices@.subrange(0, i as int), keys@.subrange(0, i as int)),
            forall|k: u64| seen@.contains(k) <==> keys@.subrange(0, i as int).contains(k),
        decreases n - i,
    {
        let ghost vs = vertices@.subrange(0, i + 1);
        let ghost ks = keys@.subrange(0, i + 1);
        assert(vs.drop_last() =~= vertices@.subrange(0, i as int));
        assert(ks.drop_last() =~= keys@.subrange(0, i as int));
        let k = keys[i];
        let ghost old_seen = seen@;
        let dup = key_seen(&seen, k);
        if !dup {
            r.push(vertices[i]);
            seen.push(k);
        }
        assert forall|x: u64| seen@.contains(x) <==> ks.contains(x) by {
            if ks.contains(x) {
                let j = choose|j: int| 0 <= j < ks.len() && ks[j] == x;
                if j < i {
                    assert(ks.drop_last()[j] == x);
                    assert(old_seen.contains(x));
                    let m = choose|m: int| 0 <= m < old_seen.len() && old_seen[m] == x;
                    assert(seen@[m] == x);
                } else {
                    assert(x == k);
                    if !dup {
                        assert(seen@[seen@.len() - 1] == x);
                    }
                }
            }
            if seen@.contains(x) {
                let m = choose|m: int| 0 <= m < seen@.len() && seen@[m] == x;
                if m < old_seen.len() {
                    assert(old_seen[m] == x);
                    assert(old_seen.contains(x));
                    assert(keys@.subrange(0, i as int).contains(x));
                    let j = choose|j: int| 0 <= j < i && keys@.subrange(0, i as int)[j] == x;
                    assert(ks[j] == x);
                } else {
                    assert(x == k);
                    assert(ks[i as int] == x);
                }
            }
        }
        i = i + 1;
    }
    assert(vertices@.subrange(0, n as int) =~= vertices@);
    assert(keys@.subrange(0, n as int) =~= keys@);
    r
}

/// Every point that survives deduplication is one of the input points.
pub proof fn lemma_dedup_members<P>(items: Seq<P>, keys: Seq<u64>, k: int)
    requires
        0 <= k < dedup_spec(items, keys).len(),
    ensures
        items.contains(dedup_spec(items, keys)[k]),
    decreases items.len(),
{
    let earlier = dedup_spec(items.drop_last(), keys.drop_last());
    if k < earlier.len() {
        lemma_dedup_members(items.drop_last(), keys.drop_last(), k);
        let j = choose|j: int| 0 <= j < items.len() - 1 && items.drop_last()[j] == earlier[k];
        assert(items[j] == earlier[k]);
    } else {
        assert(items[items.len() - 1] == items.last());
    }
}

/// The outcome of meeting a convex boundary with a segment, from the distinct
/// meeting points in discovery order: up to two of them, or an error when there are more.
pub open spec fn boundary_pair_spec<P>(distinct: Seq<P>) -> Result<(Option<P>, Option<P>), GeometryError> {
    if distinct.len() == 0 {
        Ok((None, None))
    } else if distinct.len() == 1 {
        Ok((Some(distinct[0]), None))
    } else if distinct.len() == 2 {
        Ok((Some(distinct[0]), Some(distinct[1])))
    } else {
        Err(GeometryError::InvariantViolated)
    }
}

/// The points where a convex polygon's boundary meets a segment, from what each edge
/// gave in traversal order (`hits`, identified by `keys`). Repeats are dropped; more
/// than two distinct points means the polygon was not convex, which is an error.
pub fn boundary_points<P: Copy>(hits: &Vec<P>, keys: &Vec<u64>) -> (r: Result<
    (Option<P>, Option<P>),
    GeometryError,
>)
    requires
        keys@.len() == hits@.len(),
    ensures
        r == boundary_pair_spec(dedup_spec(hits@, keys@)),
{
    let distinct = dedup_vertices(hits, keys);
    if distinct.len() == 0 {
        Ok((None, None))
    } else if distinct.len() == 1 {
        Ok((Some(distinct[0]), None))
    } else if distinct.len() == 2 {
        Ok((Some(distinct[0]), Some(distinct[1])))
    } else {
        Err(GeometryError::InvariantViolated)
    }
}

/// Meeting a convex boundary with a segment yields at most two points: the outcome
/// is an error exactly when more than two distinct points were found; otherwise a
/// second point is only given together with a first one, and both come from the hits.
pub proof fn lemma_boundary_at_most_two<P>(hits: Seq<P>, keys: Seq<u64>)
    requires
        keys.len() == hits.len(),
    ensures
        boundary_pair_spec(dedup_spec(hits, keys)) is Ok <==> dedup_spec(hits, keys).len() <= 2,
        boundary_pair_spec(dedup_spec(hits, keys)) is Err ==> boundary_pair_spec(
            dedup_spec(hits, keys),
        ) == Err::<(Option<P>, Option<P>), GeometryError>(GeometryError::InvariantViolated),
        match boundary_pair_spec(dedup_spec(hits, keys)) {
            Ok((first, second)) => {
                &&& (second is Some ==> first is Some)
                &&& (first is Some ==> hits.contains(first->0))
                &&& (second is Some ==> hits.contains(second->0))
            },
            Err(_) => true,
        },
{
    let d = dedup_spec(hits, keys);
    if d.len() >= 1 {
        lemma_dedup_members(hits, keys, 0);
    }
    if d.len() >= 2 {
        lemma_dedup_members(hits, keys, 1);
    }
}

} // verus!
