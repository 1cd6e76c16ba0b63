use vstd::prelude::*;

verus! {

/// Vertex `x` comes before vertex `y` in angular order: its angle key is smaller, or
/// the keys are equal and `x` came first in the input (the order is stable).
pub open spec fn precedes(keys: Seq<u32>, x: int, y: int) -> bool {
    keys[x] < keys[y] || (keys[x] == keys[y] && x < y)
}

/// `order` lists every index of `keys` once, in angular order.
pub open spec fn is_angular_order(keys: Seq<u32>, order: Seq<usize>) -> bool {
    &&& order.len() == keys.len()
    &&& forall|k: int| 0 <= k < order.len() ==> order[k] < keys.len()
    &&& forall|j: usize| j < keys.len() ==> #[trigger] order.contains(j)
    &&& forall|a: int, b: int|
        0 <= a < b < order.len() ==> precedes(keys, order[a] as int, order[b] as int)
}

/// Sorts the vertex indices by angle key, ascending, keeping input order among equal
/// keys. `angle_keys[i]` orders as the polar angle of vertex `i` around the centroid.
pub fn angular_order(angle_keys: &Vec<u32>) -> (r: Vec<usize>)
    ensures
        is_angular_order(angle_keys@, r@),
{
    let n = angle_keys.len();
    let ghost keys = angle_keys@;
    let mut r: Vec<usize> = Vec::new();
    let mut i: usize = 0;
    while i < n
        invariant
            n == keys.len(),
            keys == angle_keys@,
            i <= n,
            r@.len() == i,
            forall|k: int| 0 <= k < i ==> r@[k] < i,
            forall|j: usize| j < i ==> #[trigger] r@.contains(j),
            forall|a: int, b: int|
                0 <= a < b < i ==> precedes(keys, r@[a] as int, r@[b] as int),
        decreases n - i,
    {
        let key = angle_keys[i];
        let mut pos: usize = 0;
        while pos < i && angle_keys[r[pos]] <= key
            invariant
                n == keys.len(),
                keys == angle_keys@,
                i < n,
                r@.len() == i,
                pos <= i,
                forall|k: int| 0 <= k < i ==> r@[k] < i,
                forall|m: int| 0 <= m < pos ==> keys[r@[m] as int] <= key,
            decreases i - pos,
        {
            pos = pos + 1;
        }
        let ghost before = r@;
        r.insert(pos, i);
        assert forall|m: int| 0 <= m < pos implies r@[m] == before[m] by {}
        assert(r@[pos as int] == i);
        assert forall|m: int| pos < m <= i implies r@[m] == before[m - 1] by {}
        assert forall|a: int, b: int| 0 <= a < b < i + 1 implies precedes(
            keys,
            r@[a] as int,
            r@[b] as int,
        ) by {
            if b == pos {
                assert(keys[before[a] as int] <= key);
            } else if a == pos {
                assert(pos < i);
                assert(keys[before[pos as int] as int] > key);
                if b - 1 > pos {
                    assert(precedes(keys, before[pos as int] as int, before[b - 1] as int));
                }
            } else if a < pos && b > pos {
                assert(precedes(keys, before[a] as int, before[b - 1] as int));
            } else if a > pos {
                assert(precedes(keys, before[a - 1] as int, before[b - 1] as int));
            }
        }
        assert forall|j: usize| j < i + 1 implies #[trigger] r@.contains(j) by {
            if j < i {
                assert(before.contains(j));
                let m = choose|m: int| 0 <= m < before.len() && before[m] == j;
                if m < pos {
                    assert(r@[m] == j);
                } else {
                    assert(r@[m + 1] == j);
                }
            } else {
                assert(r@[pos as int] == j);
            }
        }
        i = i + 1;
    }
    r
}

/// The vertices taken in the given order: `r[k] == vertices[order[k]]`.
pub fn gather<P: Copy>(vertices: &Vec<P>, order: &Vec<usize>) -> (r: Vec<P>)
    requires
        forall|k: int| 0 <= k < order@.len() ==> order@[k] < vertices@.len(),
    ensures
        r@.len() == order@.len(),
        forall|k: int| 0 <= k < order@.len() ==> r@[k] == vertices@[order@[k] as int],
{
    let mut r: Vec<P> = Vec::new();
    let mut k: usize = 0;
    while k < order.len()
        invariant
            k <= order@.len(),
            forall|m: int| 0 <= m < order@.len() ==> order@[m] < vertices@.len(),
            r@.len() == k,
            forall|m: int| 0 <= m < k ==> r@[m] == vertices@[order@[m] as int],
        decreases order@.len() - k,
    {
        r.push(vertices[order[k]]);
        k = k + 1;
    }
    r
}

/// The vertices rearranged into ascending angle-key order, equal keys keeping their
/// input order. `angle_keys[i]` orders as the polar angle of vertex `i` around the
/// centroid of the vertices.
pub fn order_by_angle<P: Copy>(vertices: &Vec<P>, angle_keys: &Vec<u32>) -> (r: Vec<P>)
    requires
        angle_keys@.len() == vertices@.len(),
    ensures
        exists|order: Seq<usize>|
            {
                &&& is_angular_order(angle_keys@, order)
                &&& r@.len() == order.len()
                &&& forall|k: int| 0 <= k < order.len() ==> #[trigger] r@[k] == vertices@[order[k] as int]
            },
{
    let order = angular_order(angle_keys);
    let r = gather(vertices, &order);
    assert(is_angular_order(angle_keys@, order@));
    r
}

} // verus!
