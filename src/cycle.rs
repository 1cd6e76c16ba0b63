use vstd::prelude::*;

verus! {

/// Index of the vertex that follows vertex `i` in a closed ring of `n` vertices.
pub open spec fn ring_next(i: int, n: int) -> int {
    if i + 1 == n {
        0
    } else {
        i + 1
    }
}

/// The edges of a closed vertex ring: edge `i` runs from vertex `i` to the next one,
/// and the last edge closes the ring back to vertex 0.
pub fn ring_edges<P: Copy>(vertices: &Vec<P>) -> (r: Vec<(P, P)>)
    ensures
        r@.len() == vertices@.len(),
        forall|i: int|
            0 <= i < vertices@.len() ==> #[trigger] r@[i] == (
                vertices@[i],
                vertices@[ring_next(i, vertices@.len() as int)],
            ),
{
    let n = vertices.len();
    let mut r: Vec<(P, P)> = Vec::new();
    let mut i: usize = 0;
    while i < n
        invariant
            n == vertices@.len(),
            i <= n,
            r@.len() == i,
            forall|k: int|
                0 <= k < i ==> #[trigger] r@[k] == (vertices@[k], vertices@[ring_next(k, n as int)]),
        decreases n - i,
    {
        let j: usize = if i + 1 == n { 0 } else { i + 1 };
        assert(j as int == ring_next(i as int, n as int));
        r.push((vertices[i], vertices[j]));
        i = i + 1;
    }
    r
}

/// The consecutive vertex triples of a closed ring: triple `i` starts at vertex `i`
/// and takes the two vertices after it, wrapping around the end.
pub fn ring_triples<P: Copy>(vertices: &Vec<P>) -> (r: Vec<(P, P, P)>)
    ensures
        r@.len() == vertices@.len(),
        forall|i: int|
            0 <= i < vertices@.len() ==> #[trigger] r@[i] == (
                vertices@[i],
                vertices@[ring_next(i, vertices@.len() as int)],
                vertices@[ring_next(ring_next(i, vertices@.len() as int), vertices@.len() as int)],
            ),
{
    let n = vertices.len();
    let mut r: Vec<(P, P, P)> = Vec::new();
    let mut i: usize = 0;
    while i < n
        invariant
            n == vertices@.len(),
            i <= n,
            r@.len() == i,
            forall|k: int|
                0 <= k < i ==> #[trigger] r@[k] == (
                    vertices@[k],
                    vertices@[ring_next(k, n as int)],
                    vertices@[ring_next(ring_next(k, n as int), n as int)],
                ),
        decreases n - i,
    {
        let j: usize = if i + 1 == n { 0 } else { i + 1 };
        let k: usize = if j + 1 == n { 0 } else { j + 1 };
        assert(j as int == ring_next(i as int, n as int));
        assert(k as int == ring_next(j as int, n as int));
        r.push((vertices[i], vertices[j], vertices[k]));
        i = i + 1;
    }
    r
}

} // verus!
