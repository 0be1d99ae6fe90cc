//! Incremental Delaunay triangulation over fixed-point surface points.
//!
//! Points are inserted one at a time into a triangulation that starts from an
//! enclosing triangle far outside the coordinate bound. For each new point,
//! the triangles whose circumcircle strictly contains it are removed, and the
//! boundary of the removed cavity is reconnected to the point. The circle and
//! orientation predicates are exact integer determinants, so the whole
//! construction is deterministic: no epsilon, no rounding.
//!
//! The result is a triangulation of the convex hull of the input, a superset
//! of any face polygon; the polygon filter decides which triangles survive.

use vstd::prelude::*;

use crate::math::{Point2, Scalar};
use crate::polygon::poly_coord_ok;

verus! {

/// One triangle, as three indices into the point list.
#[derive(Clone, Copy, Debug, PartialEq, Eq, Structural)]
pub struct TriIdx {
    /// Index of the first corner.
    pub a: usize,
    /// Index of the second corner.
    pub b: usize,
    /// Index of the third corner.
    pub c: usize,
}

/// A triangle whose corners are distinct slots of a point list of length
/// `len`.
pub open spec fn tri_ok(t: TriIdx, len: int) -> bool {
    &&& t.a < len && t.b < len && t.c < len
    &&& t.a != t.b && t.a != t.c && t.b != t.c
}

/// The orientation determinant of three points: positive for a left turn.
pub open spec fn spec_orient(a: Point2, b: Point2, c: Point2) -> int {
    (b.u.micros - a.u.micros) * (c.v.micros - a.v.micros) - (b.v.micros - a.v.micros) * (c.u.micros
        - a.u.micros)
}

/// The in-circle determinant: for a counter-clockwise triangle `(a, b, c)`,
/// positive exactly when `d` lies strictly inside its circumcircle.
pub open spec fn spec_in_circle(a: Point2, b: Point2, c: Point2, d: Point2) -> int {
    let ax = a.u.micros - d.u.micros;
    let ay = a.v.micros - d.v.micros;
    let bx = b.u.micros - d.u.micros;
    let by = b.v.micros - d.v.micros;
    let cx = c.u.micros - d.u.micros;
    let cy = c.v.micros - d.v.micros;
    let am = ax * ax + ay * ay;
    let bm = bx * bx + by * by;
    let cm = cx * cx + cy * cy;
    ax * (by * cm - cy * bm) - ay * (bx * cm - cx * bm) + am * (bx * cy - cx * by)
}

/// A coordinate the triangulation works with: an input point or an enclosing
/// triangle corner.
pub open spec fn delaunay_coord_ok(x: int) -> bool {
    -0x2000_0000 <= x <= 0x2000_0000
}

/// Every coordinate of the point is a triangulation coordinate.
pub open spec fn delaunay_point_ok(p: Point2) -> bool {
    delaunay_coord_ok(p.u.micros as int) && delaunay_coord_ok(p.v.micros as int)
}

/// The exact product of two coordinate differences.
fn wide_mul(a: i64, b: i64) -> (r: i128)
    requires
        -0x4000_0000i64 <= a <= 0x4000_0000i64,
        -0x4000_0000i64 <= b <= 0x4000_0000i64,
    ensures
        r == a as int * b as int,
        -0x1000_0000_0000_0000i128 <= r <= 0x1000_0000_0000_0000i128,
{
    proof {
        assert(-0x1000_0000_0000_0000 <= (a as int) * (b as int) <= 0x1000_0000_0000_0000)
            by (nonlinear_arith)
            requires
                -0x4000_0000 <= a as int <= 0x4000_0000,
                -0x4000_0000 <= b as int <= 0x4000_0000,
        {}
    }
    (a as i128) * (b as i128)
}

/// The exact product of a difference and a squared magnitude.
fn mul_sm_md(a: i128, b: i128) -> (r: i128)
    requires
        -0x8000_0000i128 <= a <= 0x8000_0000i128,
        -0x4000_0000_0000_0000i128 <= b <= 0x4000_0000_0000_0000i128,
    ensures
        r == a * b,
        -0x2000_0000_0000_0000_0000_0000i128 <= r <= 0x2000_0000_0000_0000_0000_0000i128,
{
    proof {
        assert(-0x2000_0000_0000_0000_0000_0000 <= (a as int) * (b as int)
            && (a as int) * (b as int) <= 0x2000_0000_0000_0000_0000_0000) by (nonlinear_arith)
            requires
                -0x8000_0000 <= a as int <= 0x8000_0000,
                -0x4000_0000_0000_0000 <= b as int <= 0x4000_0000_0000_0000,
        {}
    }
    a * b
}

/// The exact product of a difference and a two-term magnitude combination.
fn mul_sm_lg(a: i128, b: i128) -> (r: i128)
    requires
        -0x8000_0000i128 <= a <= 0x8000_0000i128,
        -0x4000_0000_0000_0000_0000_0000i128 <= b <= 0x4000_0000_0000_0000_0000_0000i128,
    ensures
        r == a * b,
        -0x2000_0000_0000_0000_0000_0000_0000_0000i128 <= r,
        r <= 0x2000_0000_0000_0000_0000_0000_0000_0000i128,
{
    proof {
        assert(-0x2000_0000_0000_0000_0000_0000_0000_0000 <= (a as int) * (b as int)
            && (a as int) * (b as int) <= 0x2000_0000_0000_0000_0000_0000_0000_0000)
            by (nonlinear_arith)
            requires
                -0x8000_0000 <= a as int <= 0x8000_0000,
                -0x4000_0000_0000_0000_0000_0000 <= b as int
                    <= 0x4000_0000_0000_0000_0000_0000,
        {}
    }
    a * b
}

/// The exact product of two squared-magnitude-scale quantities.
fn mul_md_md(a: i128, b: i128) -> (r: i128)
    requires
        -0x4000_0000_0000_0000i128 <= a <= 0x4000_0000_0000_0000i128,
        -0x4000_0000_0000_0000i128 <= b <= 0x4000_0000_0000_0000i128,
    ensures
        r == a * b,
        -0x1000_0000_0000_0000_0000_0000_0000_0000i128 <= r,
        r <= 0x1000_0000_0000_0000_0000_0000_0000_0000i128,
{
    proof {
        assert(-0x1000_0000_0000_0000_0000_0000_0000_0000 <= (a as int) * (b as int)
            && (a as int) * (b as int) <= 0x1000_0000_0000_0000_0000_0000_0000_0000)
            by (nonlinear_arith)
            requires
                -0x4000_0000_0000_0000 <= a as int <= 0x4000_0000_0000_0000,
                -0x4000_0000_0000_0000 <= b as int <= 0x4000_0000_0000_0000,
        {}
    }
    a * b
}

/// The orientation determinant, exactly `spec_orient`.
fn orient(a: Point2, b: Point2, c: Point2) -> (r: i128)
    requires
        delaunay_point_ok(a),
        delaunay_point_ok(b),
        delaunay_point_ok(c),
    ensures
        r == spec_orient(a, b, c),
{
    let t1 = wide_mul(b.u.micros - a.u.micros, c.v.micros - a.v.micros);
    let t2 = wide_mul(b.v.micros - a.v.micros, c.u.micros - a.u.micros);
    t1 - t2
}

/// The in-circle determinant, exactly `spec_in_circle`.
fn in_circle(a: Point2, b: Point2, c: Point2, d: Point2) -> (r: i128)
    requires
        delaunay_point_ok(a),
        delaunay_point_ok(b),
        delaunay_point_ok(c),
        delaunay_point_ok(d),
    ensures
        r == spec_in_circle(a, b, c, d),
{
    let ax = a.u.micros - d.u.micros;
    let ay = a.v.micros - d.v.micros;
    let bx = b.u.micros - d.u.micros;
    let by = b.v.micros - d.v.micros;
    let cx = c.u.micros - d.u.micros;
    let cy = c.v.micros - d.v.micros;
    let am = wide_mul(ax, ax) + wide_mul(ay, ay);
    let bm = wide_mul(bx, bx) + wide_mul(by, by);
    let cm = wide_mul(cx, cx) + wide_mul(cy, cy);
    let t1 = mul_sm_lg(ax as i128, mul_sm_md(by as i128, cm) - mul_sm_md(cy as i128, bm));
    let t2 = mul_sm_lg(ay as i128, mul_sm_md(bx as i128, cm) - mul_sm_md(cx as i128, bm));
    let t3 = wide_mul(bx, cy) - wide_mul(cx, by);
    let t4 = mul_md_md(am, t3);
    t1 - t2 + t4
}

/// Whether every triangle of the list is valid over the `len`-point list
/// `pts`, avoids slot `p`, and turns counter-clockwise (no degenerate
/// triangle: its corners are never collinear).
pub open spec fn tris_ok_avoiding(tris: Seq<TriIdx>, pts: Seq<Point2>, p: int, n: int) -> bool {
    forall|i: int|
        0 <= i < tris.len() ==> tri_ok(#[trigger] tris[i], pts.len() as int) && (tris[i].a < p
            || tris[i].a >= n) && (tris[i].b < p || tris[i].b >= n) && (tris[i].c < p || tris[i].c
            >= n) && spec_orient(pts[tris[i].a as int], pts[tris[i].b as int], pts[tris[i].c as int])
            > 0
}

/// Swapping the first two corners negates the orientation determinant.
pub proof fn lemma_orient_swap(a: Point2, b: Point2, c: Point2)
    ensures
        spec_orient(b, a, c) == -spec_orient(a, b, c),
{
    assert(spec_orient(b, a, c) == -spec_orient(a, b, c)) by (nonlinear_arith) {}
}

/// Triangulate a point set: a Delaunay triangulation of its convex hull,
/// with the given constraint edges forced back in by diagonal flips.
///
/// Every returned triangle has three distinct corners, all indices into the
/// input list. Points that coincide with an already-inserted point are
/// skipped, so coincident input points cannot produce degenerate triangles.
/// Delaunay triangulation alone cannot respect concavities, so the boundary
/// edges of the face's loops are handed in as constraints and recovered.
#[verifier::loop_isolation(false)]
pub fn triangulate_points(pts: &Vec<Point2>, constraints: &Vec<(usize, usize)>) -> (r: Vec<TriIdx>)
    requires
        forall|i: int|
            0 <= i < pts@.len() ==> poly_coord_ok((#[trigger] pts@[i]).u.micros as int)
                && poly_coord_ok(pts@[i].v.micros as int),
        pts@.len() < 0x1000_0000,
    ensures
        forall|i: int|
            0 <= i < r@.len() ==> tri_ok(#[trigger] r@[i], pts@.len() as int) && spec_orient(
                pts@[r@[i].a as int],
                pts@[r@[i].b as int],
                pts@[r@[i].c as int],
            ) > 0,
{
    let n = pts.len();
    let mut ext: Vec<Point2> = Vec::new();
    let mut i: usize = 0;
    while i < n
        invariant
            0 <= i <= n,
            ext@.len() == i,
            forall|q: int| 0 <= q < i ==> ext@[q] == pts@[q],
            forall|q: int| 0 <= q < i ==> delaunay_point_ok(#[trigger] ext@[q]),
        decreases n - i,
    {
        proof {
            assert(poly_coord_ok(pts@[i as int].u.micros as int));
        }
        ext.push(pts[i]);
        i = i + 1;
    }
    ext.push(
        Point2 { u: Scalar { micros: -0x2000_0000 }, v: Scalar { micros: -0x2000_0000 } },
    );
    ext.push(Point2 { u: Scalar { micros: 0x2000_0000 }, v: Scalar { micros: -0x2000_0000 } });
    ext.push(Point2 { u: Scalar { micros: 0 }, v: Scalar { micros: 0x2000_0000 } });

    let mut tris: Vec<TriIdx> = Vec::new();
    tris.push(TriIdx { a: n, b: n + 1, c: n + 2 });
    proof {
        let s0 = ext@[n as int];
        let s1 = ext@[n as int + 1];
        let s2 = ext@[n as int + 2];
        assert(spec_orient(s0, s1, s2) > 0) by (nonlinear_arith)
            requires
                s0.u.micros == -0x2000_0000 && s0.v.micros == -0x2000_0000,
                s1.u.micros == 0x2000_0000 && s1.v.micros == -0x2000_0000,
                s2.u.micros == 0 && s2.v.micros == 0x2000_0000,
        {}
    }

    let mut p: usize = 0;
    while p < n
        invariant
            0 <= p <= n,
            n == pts@.len(),
            ext@.len() == n + 3,
            forall|q: int| 0 <= q < ext@.len() ==> delaunay_point_ok(#[trigger] ext@[q]),
            tris_ok_avoiding(tris@, ext@, p as int, n as int),
        decreases n - p,
    {
        let point = ext[p];

        // collect the triangles whose circumcircle strictly contains the point
        let mut bad: Vec<TriIdx> = Vec::new();
        let mut keep: Vec<TriIdx> = Vec::new();
        let mut t: usize = 0;
        while t < tris.len()
            invariant
                0 <= t <= tris@.len(),
                tris_ok_avoiding(tris@, ext@, p as int, n as int),
                tris_ok_avoiding(bad@, ext@, p as int, n as int),
                tris_ok_avoiding(keep@, ext@, p as int, n as int),
            decreases tris@.len() - t,
        {
            let tri = tris[t];
            let det = in_circle(ext[tri.a], ext[tri.b], ext[tri.c], point);
            if det > 0 {
                bad.push(tri);
            } else {
                keep.push(tri);
            }
            t = t + 1;
        }

        if bad.len() == 0 {
            // the point coincides with an existing vertex (or lies outside
            // every circumcircle); it contributes nothing
            p = p + 1;
            continue ;
        }
        // collect the cavity boundary: edges of removed triangles that are
        // not shared between two removed triangles
        let mut boundary: Vec<(usize, usize)> = Vec::new();
        let mut t: usize = 0;
        while t < bad.len()
            invariant
                0 <= t <= bad@.len(),
                tris_ok_avoiding(bad@, ext@, p as int, n as int),
                forall|q: int|
                    0 <= q < boundary@.len() ==> edge_ok(#[trigger] boundary@[q], n + 3, p as int, n as int),
            decreases bad@.len() - t,
        {
            let tri = bad[t];
            let e0 = (tri.a, tri.b);
            let e1 = (tri.b, tri.c);
            let e2 = (tri.c, tri.a);
            if edge_occurrences(&bad, e0) == 1 {
                boundary.push(e0);
            }
            if edge_occurrences(&bad, e1) == 1 {
                boundary.push(e1);
            }
            if edge_occurrences(&bad, e2) == 1 {
                boundary.push(e2);
            }
            t = t + 1;
        }

        // reconnect the cavity boundary to the new point
        let mut new_tris: Vec<TriIdx> = keep;
        let mut e: usize = 0;
        while e < boundary.len()
            invariant
                0 <= e <= boundary@.len(),
                n == pts@.len(),
                ext@.len() == n + 3,
                p < n,
                forall|q: int| 0 <= q < ext@.len() ==> delaunay_point_ok(#[trigger] ext@[q]),
                forall|q: int|
                    0 <= q < boundary@.len() ==> edge_ok(#[trigger] boundary@[q], n + 3, p as int, n as int),
                tris_ok_avoiding(new_tris@, ext@, p as int + 1, n as int),
            decreases boundary@.len() - e,
        {
            let (u, v) = boundary[e];
            let o = orient(ext[u], ext[v], point);
            if o > 0 {
                new_tris.push(TriIdx { a: u, b: v, c: p });
            } else if o < 0 {
                proof {
                    lemma_orient_swap(ext@[u as int], ext@[v as int], ext@[p as int]);
                }
                new_tris.push(TriIdx { a: v, b: u, c: p });
            }
            e = e + 1;
        }
        tris = new_tris;
        p = p + 1;
    }

    recover_constraints(&mut tris, &ext, constraints, n);

    // drop every triangle that touches the enclosing corners
    let mut out: Vec<TriIdx> = Vec::new();
    let mut t: usize = 0;
    while t < tris.len()
        invariant
            0 <= t <= tris@.len(),
            n == pts@.len(),
            ext@.len() == n + 3,
            forall|q: int| 0 <= q < n ==> ext@[q] == pts@[q],
            tris_ok_avoiding(tris@, ext@, n as int, n as int),
            forall|i: int|
                0 <= i < out@.len() ==> tri_ok(#[trigger] out@[i], n as int) && spec_orient(
                    pts@[out@[i].a as int],
                    pts@[out@[i].b as int],
                    pts@[out@[i].c as int],
                ) > 0,
        decreases tris@.len() - t,
    {
        let tri = tris[t];
        if tri.a < n && tri.b < n && tri.c < n {
            out.push(tri);
        }
        t = t + 1;
    }
    out
}

/// An edge whose two ends are distinct valid slots avoiding `p`.
pub open spec fn edge_ok(e: (usize, usize), len: int, p: int, n: int) -> bool {
    &&& e.0 < len && e.1 < len
    &&& e.0 != e.1
    &&& (e.0 < p || e.0 >= n) && (e.1 < p || e.1 >= n)
}

/// How many triangles of the list have the undirected edge `e`.
fn edge_occurrences(tris: &Vec<TriIdx>, e: (usize, usize)) -> (r: usize)
{
    let mut count: usize = 0;
    let mut t: usize = 0;
    while t < tris.len()
        invariant
            0 <= t <= tris@.len(),
            count <= t,
        decreases tris@.len() - t,
    {
        let tri = tris[t];
        if has_undirected_edge(tri, e) {
            count = count + 1;
        }
        t = t + 1;
    }
    count
}

/// Whether the triangle has the given edge, in either direction.
fn has_undirected_edge(t: TriIdx, e: (usize, usize)) -> bool {
    let (x, y) = e;
    (t.a == x && t.b == y) || (t.b == x && t.c == y) || (t.c == x && t.a == y) || (t.a == y && t.b
        == x) || (t.b == y && t.c == x) || (t.c == y && t.a == x)
}


/// Whether any triangle of the list has the undirected edge `(u, v)`.
fn has_edge(tris: &Vec<TriIdx>, u: usize, v: usize) -> bool {
    let mut t: usize = 0;
    while t < tris.len()
        invariant
            0 <= t <= tris@.len(),
        decreases tris@.len() - t,
    {
        if has_undirected_edge(tris[t], (u, v)) {
            return true;
        }
        t = t + 1;
    }
    false
}

/// The corner of the triangle that is neither `p` nor `q`.
fn third_vertex(t: TriIdx, p: usize, q: usize) -> usize {
    if t.a != p && t.a != q {
        t.a
    } else if t.b != p && t.b != q {
        t.b
    } else {
        t.c
    }
}

/// Whether the open segments `(a, b)` and `(c, d)` properly cross: the ends
/// of each lie strictly on opposite sides of the other.
fn segments_cross(ext: &Vec<Point2>, a: usize, b: usize, c: usize, d: usize) -> (r: bool)
    requires
        a < ext@.len() && b < ext@.len() && c < ext@.len() && d < ext@.len(),
        forall|i: int| 0 <= i < ext@.len() ==> delaunay_point_ok(#[trigger] ext@[i]),
{
    let o1 = orient(ext[a], ext[b], ext[c]);
    let o2 = orient(ext[a], ext[b], ext[d]);
    let o3 = orient(ext[c], ext[d], ext[a]);
    let o4 = orient(ext[c], ext[d], ext[b]);
    ((o1 > 0 && o2 < 0) || (o1 < 0 && o2 > 0)) && ((o3 > 0 && o4 < 0) || (o3 < 0 && o4 > 0))
}

/// Force each constraint edge into the triangulation by flipping the
/// diagonals that cross it. Each flip replaces the two triangles sharing a
/// crossing diagonal with the two on the other diagonal of their quad.
#[verifier::loop_isolation(false)]
fn recover_constraints(
    tris: &mut Vec<TriIdx>,
    ext: &Vec<Point2>,
    constraints: &Vec<(usize, usize)>,
    n: usize,
)
    requires
        n + 3 == ext@.len(),
        forall|i: int| 0 <= i < ext@.len() ==> delaunay_point_ok(#[trigger] ext@[i]),
        tris_ok_avoiding(old(tris)@, ext@, n as int, n as int),
    ensures
        tris_ok_avoiding(final(tris)@, ext@, n as int, n as int),
{
    let mut ci: usize = 0;
    while ci < constraints.len()
        invariant
            tris_ok_avoiding(tris@, ext@, n as int, n as int),
        decreases constraints@.len() - ci,
    {
        let (u, v) = constraints[ci];
        if u < n && v < n && u != v {
            let mut fuel: usize = 10_000;
            while fuel > 0
                invariant
                    tris_ok_avoiding(tris@, ext@, n as int, n as int),
                decreases fuel,
            {
                fuel = fuel - 1;
                if has_edge(tris, u, v) {
                    break ;
                }
                if !flip_one_crossing(tris, ext, u, v, n) {
                    break ;
                }
            }
        }
        ci = ci + 1;
    }
}

/// Find one flippable diagonal crossing the constraint `(u, v)` and flip it.
/// Reports whether a flip happened.
#[verifier::loop_isolation(false)]
fn flip_one_crossing(
    tris: &mut Vec<TriIdx>,
    ext: &Vec<Point2>,
    u: usize,
    v: usize,
    n: usize,
) -> (flipped: bool)
    requires
        n + 3 == ext@.len(),
        u < n && v < n,
        forall|i: int| 0 <= i < ext@.len() ==> delaunay_point_ok(#[trigger] ext@[i]),
        tris_ok_avoiding(old(tris)@, ext@, n as int, n as int),
    ensures
        tris_ok_avoiding(final(tris)@, ext@, n as int, n as int),
{
    let n3 = ext.len();
    let mut ti: usize = 0;
    while ti < tris.len()
        invariant
            tris_ok_avoiding(tris@, ext@, n as int, n as int),
            u < n && v < n,
            n + 3 == ext@.len(),
            n3 == ext@.len(),
        decreases tris@.len() - ti,
    {
        let ghost snap = tris@;
        let t = tris[ti];
        let edges = [(t.a, t.b), (t.b, t.c), (t.c, t.a)];
        let mut e: usize = 0;
        while e < 3
            invariant
                tris@ == snap,
                tris_ok_avoiding(tris@, ext@, n as int, n as int),
                u < n && v < n,
                n + 3 == ext@.len(),
                n3 == ext@.len(),
                ti < tris@.len(),
                t == tris@[ti as int],
                edges@.len() == 3,
                forall|q: int|
                    0 <= q < 3 ==> (#[trigger] edges@[q]).0 < n + 3 && edges@[q].1 < n + 3
                        && edges@[q].0 != edges@[q].1,
            decreases 3 - e,
        {
            let (p, q) = edges[e];
            if p != u && p != v && q != u && q != v && segments_cross(ext, u, v, p, q) {
                // find the partner triangle across (p, q)
                let mut tj: usize = 0;
                while tj < tris.len()
                    invariant
                        tris@ == snap,
                        tris_ok_avoiding(tris@, ext@, n as int, n as int),
                        ti < tris@.len(),
                        t == tris@[ti as int],
                        p < n + 3 && q < n + 3 && p != q,
                        n + 3 == ext@.len(),
                        n3 == ext@.len(),
                    decreases tris@.len() - tj,
                {
                    if tj != ti && has_undirected_edge(tris[tj], (p, q)) {
                        let t2 = tris[tj];
                        let r = third_vertex(t, p, q);
                        let s = third_vertex(t2, p, q);
                        if r < n3 && s < n3 && r != s && r != p && r != q && s != p && s != q
                            && segments_cross(ext, r, s, p, q) {
                            let o1 = orient(ext[r], ext[s], ext[p]);
                            let o2 = orient(ext[r], ext[s], ext[q]);
                            if o1 != 0 && o2 != 0 {
                                // rebuild without the two old triangles
                                let mut kept: Vec<TriIdx> = Vec::new();
                                let mut w: usize = 0;
                                while w < tris.len()
                                    invariant
                                        tris@ == snap,
                                        tris_ok_avoiding(tris@, ext@, n as int, n as int),
                                        tris_ok_avoiding(kept@, ext@, n as int, n as int),
                                    decreases tris@.len() - w,
                                {
                                    if w != ti && w != tj {
                                        kept.push(tris[w]);
                                    }
                                    w = w + 1;
                                }
                                let na = if o1 > 0 {
                                    TriIdx { a: r, b: s, c: p }
                                } else {
                                    TriIdx { a: s, b: r, c: p }
                                };
                                let nb = if o2 > 0 {
                                    TriIdx { a: r, b: s, c: q }
                                } else {
                                    TriIdx { a: s, b: r, c: q }
                                };
                                proof {
                                    lemma_orient_swap(ext@[r as int], ext@[s as int], ext@[p as int]);
                                    lemma_orient_swap(ext@[r as int], ext@[s as int], ext@[q as int]);
                                    assert(tri_ok(na, n as int + 3));
                                    assert(tri_ok(nb, n as int + 3));
                                }
                                kept.push(na);
                                kept.push(nb);
                                *tris = kept;
                                return true;
                            }
                        }
                    }
                    tj = tj + 1;
                }
            }
            e = e + 1;
        }
        ti = ti + 1;
    }
    false
}

} // verus!
