use vstd::prelude::*;

verus! {

/// What one edge of a polygon contributes to the intersection region: the edge's
/// start vertex, whether the other polygon contains that vertex, and the points
/// where the edge meets the other polygon's boundary, in the order they were found.
#[derive(Debug, Clone, Copy)]
pub struct EdgeReport<P> {
    pub vertex: P,
    pub vertex_inside: bool,
    pub first_hit: Option<P>,
    pub second_hit: Option<P>,
}

/// The points an optional value stands for: none or one.
pub open spec fn option_points<P>(o: Option<P>) -> Seq<P> {
    match o {
        Some(p) => seq![p],
        None => seq![],
    }
}

/// The points one edge report emits: its vertex when it is contained, then its hits.
pub open spec fn report_points<P>(r: EdgeReport<P>) -> Seq<P> {
    (if r.vertex_inside {
        seq![r.vertex]
    } else {
        seq![]
    }) + option_points(r.first_hit) + option_points(r.second_hit)
}

/// The points a walk over a polygon's edges emits, edge after edge.
pub open spec fn walk_points<P>(reports: Seq<EdgeReport<P>>) -> Seq<P>
    decreases reports.len(),
{
    if reports.len() == 0 {
        seq![]
    } else {
        walk_points(reports.drop_last()) + report_points(reports.last())
    }
}

/// Appends to `out` the points of a walk over one polygon's edges, in walk order.
pub fn emit_walk<P: Copy>(reports: &Vec<EdgeReport<P>>, out: &mut Vec<P>)
    ensures
        final(out)@ == old(out)@ + walk_points(reports@),
{
    let n = reports.len();
    let mut i: usize = 0;
    while i < n
        invariant
            n == reports@.len(),
            i <= n,
            out@ == old(out)@ + walk_points(reports@.subrange(0, i as int)),
        decreases n - i,
    {
        let r = reports[i];
        assert(reports@.subrange(0, i + 1).drop_last() =~= reports@.subrange(0, i as int));
        if r.vertex_inside {
            out.push(r.vertex);
        }
        match r.first_hit {
            Some(p) => out.push(p),
            None => {},
        }
        match r.second_hit {
            Some(p) => out.push(p),
            None => {},
        }
        assert(out@ =~= old(out)@ + walk_points(reports@.subrange(0, i + 1)));
        i = i + 1;
    }
    assert(reports@.subrange(0, n as int) =~= reports@);
}

/// The raw boundary points of the intersection of two convex polygons: the walk over
/// the first polygon's edges against the second, then the walk over the second's
/// edges against the first. Nothing is removed or reordered here.
pub fn assemble_intersection<P: Copy>(
    first_walk: &Vec<EdgeReport<P>>,
    second_walk: &Vec<EdgeReport<P>>,
) -> (r: Vec<P>)
    ensures
        r@ == walk_points(first_walk@) + walk_points(second_walk@),
{
    let mut r: Vec<P> = Vec::new();
    emit_walk(first_walk, &mut r);
    emit_walk(second_walk, &mut r);
    assert(r@ =~= walk_points(first_walk@) + walk_points(second_walk@));
    r
}

} // verus!
