use polyrust::clip::{assemble_intersection, EdgeReport};
use polyrust::cycle::{ring_edges, ring_triples};
use polyrust::dedup::boundary_points;
use polyrust::error::GeometryError;
use polyrust::order::order_by_angle;
use polyrust::orient::{check_polygon_is_convex, Sign};
use polyrust::polygon::admit_vertices;
use polyrust::winding::{is_point_inside, EdgeCrossing};

// Single-precision arithmetic feeding the library, as a caller of it does.

#[derive(Debug, PartialEq, Clone, Copy)]
struct Point {
    x: f32,
    y: f32,
}

fn pt(x: f32, y: f32) -> Point {
    Point { x, y }
}

fn is_left(p0: Point, p1: Point, p2: Point) -> f32 {
    (p1.x - p0.x) * (p2.y - p0.y) - (p2.x - p0.x) * (p1.y - p0.y)
}

fn sign_of(v: f32) -> Sign {
    if v < 0.0 {
        Sign::Negative
    } else if v > 0.0 {
        Sign::Positive
    } else {
        Sign::Zero
    }
}

fn bits(v: f32) -> u32 {
    (v + 0.0).to_bits()
}

fn keys_of(ps: &Vec<Point>) -> Vec<u64> {
    ps.iter().map(|p| ((bits(p.x) as u64) << 32) | bits(p.y) as u64).collect()
}

fn angle_key(a: f32) -> u32 {
    let b = bits(a);
    if b >> 31 == 1 {
        !b
    } else {
        b | (1 << 31)
    }
}

fn turns_of(vs: &Vec<Point>) -> Vec<Sign> {
    ring_triples(vs).iter().map(|&(a, b, c)| sign_of(is_left(a, b, c))).collect()
}

fn between(v: f32, a: f32, b: f32) -> bool {
    (v >= a && v <= b) || (v >= b && v <= a)
}

fn intersect_segments(s1: (Point, Point), s2: (Point, Point)) -> Option<Point> {
    let (a1, b1) = (s1.1.y - s1.0.y, s1.0.x - s1.1.x);
    let c1 = a1 * s1.0.x + b1 * s1.0.y;
    let (a2, b2) = (s2.1.y - s2.0.y, s2.0.x - s2.1.x);
    let c2 = a2 * s2.0.x + b2 * s2.0.y;
    let det = a1 * b2 - a2 * b1;
    if det == 0.0 {
        return None;
    }
    let p = pt((b2 * c1 - b1 * c2) / det, (a1 * c2 - a2 * c1) / det);
    let on = |s: (Point, Point)| between(p.x, s.0.x, s.1.x) && between(p.y, s.0.y, s.1.y);
    if on(s1) && on(s2) {
        Some(p)
    } else {
        None
    }
}

fn polygon(vs: &Vec<Point>) -> Result<Vec<Point>, GeometryError> {
    let unique = admit_vertices(vs, &turns_of(vs), &keys_of(vs))?;
    let n = unique.len() as f32;
    let cx = unique.iter().map(|p| p.x).sum::<f32>() / n;
    let cy = unique.iter().map(|p| p.y).sum::<f32>() / n;
    let keys: Vec<u32> = unique.iter().map(|p| angle_key((p.y - cy).atan2(p.x - cx))).collect();
    Ok(order_by_angle(&unique, &keys))
}

fn contains(poly: &Vec<Point>, p: Point) -> bool {
    let edges: Vec<EdgeCrossing> = ring_edges(poly)
        .iter()
        .map(|&(v1, v2)| EdgeCrossing {
            start_at_or_below: v1.y <= p.y,
            end_above: v2.y > p.y,
            side: sign_of(is_left(v1, v2, p)),
        })
        .collect();
    is_point_inside(&edges)
}

fn meet(poly: &Vec<Point>, seg: (Point, Point)) -> Result<(Option<Point>, Option<Point>), GeometryError> {
    let hits: Vec<Point> =
        ring_edges(poly).iter().filter_map(|&e| intersect_segments(e, seg)).collect();
    boundary_points(&hits, &keys_of(&hits))
}

fn walk(poly: &Vec<Point>, other: &Vec<Point>) -> Vec<EdgeReport<Point>> {
    ring_edges(poly)
        .iter()
        .map(|&(v1, v2)| {
            let (first_hit, second_hit) = meet(other, (v1, v2)).unwrap();
            EdgeReport { vertex: v1, vertex_inside: contains(other, v1), first_hit, second_hit }
        })
        .collect()
}

fn clip(a: &Vec<Point>, b: &Vec<Point>) -> Vec<Point> {
    assemble_intersection(&walk(a, b), &walk(b, a))
}

fn triangle() -> Vec<Point> {
    polygon(&vec![pt(0.0, 0.0), pt(2.0, 0.0), pt(1.0, 2.0)]).unwrap()
}

#[test]
fn test_point_inside_triangle() {
    assert!(contains(&triangle(), pt(1.0, 1.0)));
}

#[test]
fn test_point_outside_triangle() {
    assert!(!contains(&triangle(), pt(3.0, 3.0)));
}

#[test]
fn test_point_on_vertex() {
    assert!(contains(&triangle(), pt(0.0, 0.0)));
}

#[test]
fn test_point_on_edge() {
    assert!(contains(&triangle(), pt(1.0, 0.0)));
}

#[test]
fn test_point_inside_square() {
    let square = polygon(&vec![pt(0.0, 0.0), pt(2.0, 0.0), pt(2.0, 2.0), pt(0.0, 2.0)]).unwrap();
    assert!(contains(&square, pt(1.0, 1.0)));
}

#[test]
fn test_non_convex_polygon() {
    let vs = vec![pt(0.0, 0.0), pt(2.0, 0.0), pt(1.0, 1.0), pt(2.0, 2.0), pt(0.0, 2.0)];
    assert!(!check_polygon_is_convex(&turns_of(&vs)));
    assert_eq!(polygon(&vs), Err(GeometryError::NotConvex));
}

#[test]
fn test_segment_intersects_triangle() {
    let pts = meet(&triangle(), (pt(0.0, 1.0), pt(2.0, 1.0))).unwrap();
    assert!(pts.0.is_some());
    assert_eq!(pts.0.unwrap().x, 1.5);
    assert_eq!(pts.0.unwrap().y, 1.0);
    assert!(pts.1.is_some());
    assert_eq!(pts.1.unwrap().x, 0.5);
    assert_eq!(pts.1.unwrap().y, 1.0);
}

#[test]
fn test_segment_outside_polygon() {
    let (pt1, pt2) = meet(&triangle(), (pt(-2.0, 3.0), pt(-1.0, 3.0))).unwrap();
    assert!(pt1.is_none());
    assert!(pt2.is_none());
}

#[test]
fn test_segment_touches_vertex() {
    let (pt1, pt2) = meet(&triangle(), (pt(0.0, 0.0), pt(-1.0, -1.0))).unwrap();
    assert!(pt1.is_some());
    assert_eq!(pt1.unwrap().x, 0.0);
    assert_eq!(pt1.unwrap().y, 0.0);
    assert!(pt2.is_none());
}

#[test]
fn test_segment_touches_edge() {
    let (pt1, pt2) = meet(&triangle(), (pt(1.0, 0.0), pt(-1.0, -1.0))).unwrap();
    assert!(pt1.is_some());
    assert_eq!(pt1.unwrap().x, 1.0);
    assert_eq!(pt1.unwrap().y, 0.0);
    assert!(pt2.is_none());
}

#[test]
fn test_intersect_convex_polygons_no_intersection() {
    let other = polygon(&vec![pt(3.0, 3.0), pt(5.0, 3.0), pt(4.0, 5.0)]).unwrap();
    assert!(clip(&triangle(), &other).is_empty());
}

#[test]
fn test_intersect_convex_polygons_overlap() {
    let other = polygon(&vec![pt(1.0, 1.0), pt(3.0, 1.0), pt(2.0, 3.0)]).unwrap();
    let intersection = clip(&triangle(), &other);
    assert!(!intersection.is_empty());
    let inter_poly = polygon(&intersection).unwrap();
    assert_eq!(inter_poly, vec![pt(1.0, 1.0), pt(1.5, 1.0), pt(1.25, 1.5)]);
}

#[test]
fn test_intersect_convex_polygons_vertex_touch() {
    let other = polygon(&vec![pt(1.0, 2.0), pt(3.0, 2.0), pt(2.0, 4.0)]).unwrap();
    let intersection = clip(&triangle(), &other);
    assert!(!intersection.is_empty());
    let inter_poly = polygon(&intersection).unwrap();
    assert_eq!(inter_poly.len(), 1);
    assert_eq!(inter_poly[0].x, 1.0);
    assert_eq!(inter_poly[0].y, 2.0);
}

#[test]
fn test_intersect_convex_polygons_edge_overlap() {
    let other = polygon(&vec![pt(0.0, 0.0), pt(4.0, 0.0), pt(5.0, 2.0)]).unwrap();
    let pts = polygon(&clip(&triangle(), &other)).unwrap();
    assert_eq!(pts.len(), 3);
    assert_eq!(pts[0].x, 0.0);
    assert_eq!(pts[0].y, 0.0);
    assert_eq!(pts[1].x, 2.0);
    assert_eq!(pts[1].y, 0.0);
    assert_eq!(pts[2].x, 1.6666666);
    assert_eq!(pts[2].y, 0.6666667);
}

#[test]
fn clip_of_kite_and_triangle_matches_rendered_region() {
    let kite = polygon(&vec![pt(20.0, 10.0), pt(30.0, 2.0), pt(40.0, 10.0), pt(30.0, 20.0)]).unwrap();
    let tri = polygon(&vec![pt(10.0, 10.0), pt(30.0, 10.0), pt(20.0, 30.0)]).unwrap();
    assert_eq!(kite, vec![pt(20.0, 10.0), pt(30.0, 2.0), pt(40.0, 10.0), pt(30.0, 20.0)]);
    assert_eq!(tri, vec![pt(10.0, 10.0), pt(30.0, 10.0), pt(20.0, 30.0)]);
    let region = polygon(&clip(&kite, &tri)).unwrap();
    assert_eq!(region, vec![pt(20.0, 10.0), pt(30.0, 10.0), pt(26.666666, 16.666666)]);
}
