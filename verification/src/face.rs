//! Face approximation and triangulation.
//!
//! A face's boundary cycles are walked half-edge by half-edge: each
//! half-edge contributes its starting point and then its curve samples, all
//! on the shared parameter lattice, in surface-local coordinates paired with
//! the corresponding global points through the face's surface. The assembled
//! loops are triangulated and filtered against the true polygon, and the
//! surviving triangles land in the mesh with the face's color.

use vstd::prelude::*;

use crate::approx::{circle2_approx_ok, circle2_samples};
use crate::delaunay::{spec_orient, triangulate_points, tri_ok};
use crate::geometry::{lemma_scaled_mul_bound, scaled_mul, spec_scaled_mul, SurfacePath};
use crate::math::{Point2, Point3, Scalar, Tolerance};
use crate::mesh::{spec_color_unset, Color, Mesh};
use crate::objects::{Cycle, Face, HalfEdge, Objects, Surface};
use crate::polygon::{point_in_loop, poly_coord_ok, Polygon, POLY_COORD_LIMIT};
use crate::trig::{lemma_spec_cos_bound, lemma_spec_sin_bound};

verus! {

/// The orientation convention of a surface's local coordinates, needed to
/// interpret triangle winding after transforms that may reflect.
#[derive(Clone, Copy, Debug, PartialEq, Eq, Structural)]
pub enum Handedness {
    /// The local axes form a left-handed frame.
    Left,
    /// The local axes form a right-handed frame.
    Right,
}

/// One approximated boundary point: its surface-local position paired with
/// its global position. The two stay in exact correspondence because both
/// are computed from the same lattice parameter.
#[derive(Clone, Copy, Debug, PartialEq, Eq, Structural)]
pub struct ApproxPoint {
    /// The point in surface-local coordinates.
    pub local: Point2,
    /// The point in global coordinates.
    pub global: Point3,
}

/// The approximation of one boundary cycle: a closed polygon loop.
pub struct CycleApprox {
    /// The loop's points, in traversal order; the loop closes itself without
    /// repeating the first point.
    pub points: Vec<ApproxPoint>,
}

/// The approximation of a face: one exterior loop, any number of hole loops,
/// the face's color and the surface's handedness.
pub struct FaceApprox {
    /// The exterior boundary loop.
    pub exterior: CycleApprox,
    /// The hole loops, kept separate from the exterior.
    pub interiors: Vec<CycleApprox>,
    /// The face's color, if one was assigned.
    pub color: Option<Color>,
    /// The orientation convention of the surface's coordinates.
    pub coord_handedness: Handedness,
}

/// Where a surface-local point lands in global space, on a plane surface.
pub open spec fn spec_surface_point(s: Surface, local: Point2) -> Point3 {
    Point3 {
        x: Scalar {
            micros: (s.origin.x.micros + spec_scaled_mul(s.u.x.micros as int, local.u.micros as int)
                + spec_scaled_mul(s.v.x.micros as int, local.v.micros as int)) as i64,
        },
        y: Scalar {
            micros: (s.origin.y.micros + spec_scaled_mul(s.u.y.micros as int, local.u.micros as int)
                + spec_scaled_mul(s.v.y.micros as int, local.v.micros as int)) as i64,
        },
        z: Scalar {
            micros: (s.origin.z.micros + spec_scaled_mul(s.u.z.micros as int, local.u.micros as int)
                + spec_scaled_mul(s.v.z.micros as int, local.v.micros as int)) as i64,
        },
    }
}

/// A surface whose coordinates are small enough for exact evaluation.
pub open spec fn surface_small(s: Surface) -> bool {
    &&& -0x800_0000 <= s.origin.x.micros <= 0x800_0000
    &&& -0x800_0000 <= s.origin.y.micros <= 0x800_0000
    &&& -0x800_0000 <= s.origin.z.micros <= 0x800_0000
    &&& -0x800_0000 <= s.u.x.micros <= 0x800_0000
    &&& -0x800_0000 <= s.u.y.micros <= 0x800_0000
    &&& -0x800_0000 <= s.u.z.micros <= 0x800_0000
    &&& -0x800_0000 <= s.v.x.micros <= 0x800_0000
    &&& -0x800_0000 <= s.v.y.micros <= 0x800_0000
    &&& -0x800_0000 <= s.v.z.micros <= 0x800_0000
}

/// A local point small enough to map through a surface.
pub open spec fn local_small(p: Point2) -> bool {
    &&& -0x10_0000_0000 <= p.u.micros <= 0x10_0000_0000
    &&& -0x10_0000_0000 <= p.v.micros <= 0x10_0000_0000
}

/// Map a surface-local point to global coordinates.
pub fn surface_point(s: &Surface, local: Point2) -> (r: Point3)
    requires
        surface_small(*s),
        local_small(local),
    ensures
        r == spec_surface_point(*s, local),
{
    proof {
        lemma_scaled_mul_bound(s.u.x.micros as int, local.u.micros as int, 0x800_0000, 0x10_0000_0000);
        lemma_scaled_mul_bound(s.u.y.micros as int, local.u.micros as int, 0x800_0000, 0x10_0000_0000);
        lemma_scaled_mul_bound(s.u.z.micros as int, local.u.micros as int, 0x800_0000, 0x10_0000_0000);
        lemma_scaled_mul_bound(s.v.x.micros as int, local.v.micros as int, 0x800_0000, 0x10_0000_0000);
        lemma_scaled_mul_bound(s.v.y.micros as int, local.v.micros as int, 0x800_0000, 0x10_0000_0000);
        lemma_scaled_mul_bound(s.v.z.micros as int, local.v.micros as int, 0x800_0000, 0x10_0000_0000);
    }
    let x = s.origin.x.micros + scaled_mul(s.u.x.micros, local.u.micros) + scaled_mul(
        s.v.x.micros,
        local.v.micros,
    );
    let y = s.origin.y.micros + scaled_mul(s.u.y.micros, local.u.micros) + scaled_mul(
        s.v.y.micros,
        local.v.micros,
    );
    let z = s.origin.z.micros + scaled_mul(s.u.z.micros, local.u.micros) + scaled_mul(
        s.v.z.micros,
        local.v.micros,
    );
    Point3 { x: Scalar { micros: x }, y: Scalar { micros: y }, z: Scalar { micros: z } }
}

/// A half-edge whose geometry the approximator accepts: small coordinates,
/// and for a circle a valid radius.
pub open spec fn half_edge_small(he: HalfEdge) -> bool {
    &&& -0x100_0000_0000 <= he.boundary.start.t.micros <= 0x100_0000_0000
    &&& -0x100_0000_0000 <= he.boundary.end.t.micros <= 0x100_0000_0000
    &&& match he.path {
        SurfacePath::Line(l) => {
            &&& -0x800_0000 <= l.origin.u.micros <= 0x800_0000
            &&& -0x800_0000 <= l.origin.v.micros <= 0x800_0000
            &&& -0x1000_0000 <= l.direction.u.micros <= 0x1000_0000
            &&& -0x1000_0000 <= l.direction.v.micros <= 0x1000_0000
            &&& -0x800_0000 <= he.boundary.start.t.micros <= 0x800_0000
        },
        SurfacePath::Circle(c) => {
            &&& -0x800_0000 <= c.center.u.micros <= 0x800_0000
            &&& -0x800_0000 <= c.center.v.micros <= 0x800_0000
            &&& -0x800_0000 <= c.a.u.micros <= 0x800_0000
            &&& -0x800_0000 <= c.a.v.micros <= 0x800_0000
            &&& -0x800_0000 <= c.b.u.micros <= 0x800_0000
            &&& -0x800_0000 <= c.b.v.micros <= 0x800_0000
            &&& circle2_approx_ok(c)
        },
    }
}

/// Every local point a small half-edge produces is small enough for the
/// surface mapping.
pub proof fn lemma_half_edge_point_small(he: HalfEdge, t: int)
    requires
        half_edge_small(he),
        he.path matches SurfacePath::Line(_) ==> -0x800_0000 <= t <= 0x800_0000,
    ensures
        local_small(he.path.spec_point_from_path_coords(t)),
{
    match he.path {
        SurfacePath::Line(l) => {
            lemma_scaled_mul_bound(l.direction.u.micros as int, t, 0x1000_0000, 0x800_0000);
            lemma_scaled_mul_bound(l.direction.v.micros as int, t, 0x1000_0000, 0x800_0000);
        },
        SurfacePath::Circle(c) => {
            lemma_spec_cos_bound(t);
            lemma_spec_sin_bound(t);
            lemma_scaled_mul_bound(c.a.u.micros as int, crate::trig::spec_cos(t), 0x800_0000, 2_000_000);
            lemma_scaled_mul_bound(c.a.v.micros as int, crate::trig::spec_cos(t), 0x800_0000, 2_000_000);
            lemma_scaled_mul_bound(c.b.u.micros as int, crate::trig::spec_sin(t), 0x800_0000, 2_000_000);
            lemma_scaled_mul_bound(c.b.v.micros as int, crate::trig::spec_sin(t), 0x800_0000, 2_000_000);
        },
    }
}

/// The approximated point at parameter `t` of a half-edge on a surface.
pub open spec fn spec_approx_point(s: Surface, he: HalfEdge, t: int) -> ApproxPoint {
    let local = he.path.spec_point_from_path_coords(t);
    ApproxPoint { local, global: spec_surface_point(s, local) }
}

/// The points one half-edge contributes to its cycle: its starting point,
/// then its curve samples, all in traversal order.
pub open spec fn spec_half_edge_points(s: Surface, he: HalfEdge, tolerance: Tolerance) -> Seq<
    ApproxPoint,
> {
    let samples = match he.path {
        SurfacePath::Circle(c) => circle2_samples(c, he.boundary, tolerance),
        SurfacePath::Line(_) => Seq::<crate::math::Point1>::empty(),
    };
    Seq::new(
        1 + samples.len(),
        |i: int|
            if i == 0 {
                spec_approx_point(s, he, he.boundary.start.t.micros as int)
            } else {
                spec_approx_point(s, he, samples[i - 1].t.micros as int)
            },
    )
}

/// The loop a whole cycle contributes: the half-edges' points concatenated
/// in cycle order. The loop closes itself, so no point is repeated.
pub open spec fn spec_cycle_points(s: Surface, hes: Seq<HalfEdge>, tolerance: Tolerance) -> Seq<
    ApproxPoint,
>
    decreases hes.len(),
{
    if hes.len() == 0 {
        Seq::empty()
    } else {
        spec_cycle_points(s, hes.drop_last(), tolerance) + spec_half_edge_points(
            s,
            hes.last(),
            tolerance,
        )
    }
}


/// The half-edge values a sequence of handles denotes.
pub open spec fn he_values(objects: &Objects, hs: Seq<crate::storage::Handle<HalfEdge>>) -> Seq<
    HalfEdge,
> {
    Seq::new(hs.len(), |i: int| objects.half_edges.view()[hs[i].spec_id() as int])
}

/// A cycle the approximator accepts: every half-edge handle denotes a stored
/// node with small geometry.
pub open spec fn cycle_approx_ok(objects: &Objects, cycle: Cycle) -> bool {
    forall|i: int|
        0 <= i < cycle.half_edges@.len() ==> (#[trigger] cycle.half_edges@[i]).spec_id()
            < objects.half_edges.view().len() && half_edge_small(
            objects.half_edges.view()[cycle.half_edges@[i].spec_id() as int],
        )
}

/// Approximate one boundary cycle into a closed polygon loop.
#[verifier::loop_isolation(false)]
fn approx_cycle(objects: &Objects, cycle: &Cycle, s: &Surface, tolerance: Tolerance) -> (r:
    CycleApprox)
    requires
        surface_small(*s),
        cycle_approx_ok(objects, *cycle),
    ensures
        r.points@ == spec_cycle_points(*s, he_values(objects, cycle.half_edges@), tolerance),
{
    let ghost hs = cycle.half_edges@;
    let mut points: Vec<ApproxPoint> = Vec::new();
    let mut i: usize = 0;
    while i < cycle.half_edges.len()
        invariant
            0 <= i <= hs.len(),
            points@ == spec_cycle_points(*s, he_values(objects, hs.take(i as int)), tolerance),
        decreases hs.len() - i,
    {
        let handle = cycle.half_edges[i];
        let he = *objects.half_edges.get(&handle);
        let ghost head = spec_half_edge_points(*s, he, tolerance);
        proof {
            lemma_half_edge_point_small(he, he.boundary.start.t.micros as int);
        }
        let start_local = he.path.point_from_path_coords(he.boundary.start);
        let start_global = surface_point(s, start_local);
        points.push(ApproxPoint { local: start_local, global: start_global });
        let samples = he.path.approx_with_cache(he.boundary, tolerance);
        proof {
            assert(points@ == spec_cycle_points(*s, he_values(objects, hs.take(i as int)), tolerance)
                + head.take(1));
            match he.path {
                SurfacePath::Circle(c) => {
                    assert forall|q: int| 0 <= q < samples@.len() implies {
                        &&& (#[trigger] samples@[q]).1 == he.path.spec_point_from_path_coords(
                            samples@[q].0.t.micros as int,
                        )
                        &&& head[q + 1] == spec_approx_point(*s, he, samples@[q].0.t.micros as int)
                    } by {
                        assert(samples@[q].0 == circle2_samples(c, he.boundary, tolerance)[q]);
                    }
                },
                SurfacePath::Line(_) => {
                    assert(samples@ =~= Seq::<(crate::math::Point1, Point2)>::empty());
                },
            }
        }
        let mut j: usize = 0;
        while j < samples.len()
            invariant
                0 <= j <= samples@.len(),
                head == spec_half_edge_points(*s, he, tolerance),
                head.len() == 1 + samples@.len(),
                he == objects.half_edges.view()[hs[i as int].spec_id() as int],
                i < hs.len(),
                half_edge_small(he),
                forall|q: int|
                    0 <= q < samples@.len() ==> (#[trigger] samples@[q]).1
                        == he.path.spec_point_from_path_coords(samples@[q].0.t.micros as int),
                forall|q: int|
                    0 <= q < samples@.len() ==> head[q + 1] == spec_approx_point(
                        *s,
                        he,
                        (#[trigger] samples@[q]).0.t.micros as int,
                    ),
                points@ == spec_cycle_points(*s, he_values(objects, hs.take(i as int)), tolerance)
                    + head.take(1 + j),
            decreases samples@.len() - j,
        {
            let p = samples[j];
            proof {
                lemma_half_edge_point_small(he, p.0.t.micros as int);
            }
            let g = surface_point(s, p.1);
            points.push(ApproxPoint { local: p.1, global: g });
            proof {
                assert(head.take(1 + j as int + 1) =~= head.take(1 + j as int).push(
                    head[1 + j as int],
                ));
                assert(points@ == spec_cycle_points(
                    *s,
                    he_values(objects, hs.take(i as int)),
                    tolerance,
                ) + head.take(1 + j as int + 1));
            }
            j = j + 1;
        }
        proof {
            assert(head.take(1 + samples@.len() as int) =~= head);
            assert(he_values(objects, hs.take(i as int + 1)).drop_last() =~= he_values(
                objects,
                hs.take(i as int),
            ));
            assert(he_values(objects, hs.take(i as int + 1)).last() == he);
            assert(spec_cycle_points(*s, he_values(objects, hs.take(i as int + 1)), tolerance)
                == spec_cycle_points(*s, he_values(objects, hs.take(i as int)), tolerance) + head);
        }
        i = i + 1;
    }
    proof {
        assert(hs.take(hs.len() as int) =~= hs);
    }
    CycleApprox { points }
}

/// A face the approximator accepts: valid handles throughout, a small plane
/// surface, and small half-edge geometry on every cycle.
pub open spec fn face_approx_ok(objects: &Objects, face: Face) -> bool {
    &&& face.surface.spec_id() < objects.surfaces.view().len()
    &&& face.region.spec_id() < objects.regions.view().len()
    &&& surface_small(objects.surfaces.view()[face.surface.spec_id() as int])
    &&& {
        let region = objects.regions.view()[face.region.spec_id() as int];
        &&& region.exterior.spec_id() < objects.cycles.view().len()
        &&& cycle_approx_ok(
            objects,
            objects.cycles.view()[region.exterior.spec_id() as int],
        )
        &&& forall|h: int|
            0 <= h < region.interiors@.len() ==> (#[trigger] region.interiors@[h]).spec_id()
                < objects.cycles.view().len() && cycle_approx_ok(
                objects,
                objects.cycles.view()[region.interiors@[h].spec_id() as int],
            )
    }
}

/// What face approximation returns: every loop point, the color and the
/// handedness are pinned by the graph and the tolerance alone.
pub open spec fn is_face_approx_of(
    objects: &Objects,
    face: Face,
    tolerance: Tolerance,
    r: &FaceApprox,
) -> bool {
    let s = objects.surfaces.view()[face.surface.spec_id() as int];
    let region = objects.regions.view()[face.region.spec_id() as int];
    &&& r.exterior.points@ == spec_cycle_points(
        s,
        he_values(objects, objects.cycles.view()[region.exterior.spec_id() as int].half_edges@),
        tolerance,
    )
    &&& r.interiors@.len() == region.interiors@.len()
    &&& forall|h: int|
        0 <= h < region.interiors@.len() ==> (#[trigger] r.interiors@[h]).points@
            == spec_cycle_points(
            s,
            he_values(
                objects,
                objects.cycles.view()[region.interiors@[h].spec_id() as int].half_edges@,
            ),
            tolerance,
        )
    &&& r.color == region.color
    &&& r.coord_handedness == Handedness::Right
}

/// Law: the approximation stage is deterministic. Any two approximations of
/// the same face of the same graph under the same tolerance agree on every
/// loop point, the color and the handedness; downstream, the triangulator and
/// the mesh builder are exact integer functions of these points, so repeated
/// pipeline runs on identical inputs produce identical meshes.
pub proof fn lemma_face_approx_deterministic(
    objects: &Objects,
    face: Face,
    tolerance: Tolerance,
    r1: &FaceApprox,
    r2: &FaceApprox,
)
    requires
        is_face_approx_of(objects, face, tolerance, r1),
        is_face_approx_of(objects, face, tolerance, r2),
    ensures
        r1.exterior.points@ == r2.exterior.points@,
        r1.interiors@.len() == r2.interiors@.len(),
        forall|h: int|
            0 <= h < r1.interiors@.len() ==> (#[trigger] r1.interiors@[h]).points@
                == r2.interiors@[h].points@,
        r1.color == r2.color,
        r1.coord_handedness == r2.coord_handedness,
{
}

/// Check one half-edge's geometry against the approximator's bounds.
fn check_half_edge_small(he: &HalfEdge) -> (r: bool)
    ensures
        r == half_edge_small(*he),
{
    if he.boundary.start.t.micros < -0x100_0000_0000i64 || he.boundary.start.t.micros
        > 0x100_0000_0000i64 || he.boundary.end.t.micros < -0x100_0000_0000i64
        || he.boundary.end.t.micros > 0x100_0000_0000i64 {
        return false;
    }
    match &he.path {
        SurfacePath::Line(l) => l.origin.u.micros >= -0x800_0000 && l.origin.u.micros <= 0x800_0000
            && l.origin.v.micros >= -0x800_0000 && l.origin.v.micros <= 0x800_0000
            && l.direction.u.micros >= -0x1000_0000 && l.direction.u.micros <= 0x1000_0000
            && l.direction.v.micros >= -0x1000_0000 && l.direction.v.micros <= 0x1000_0000
            && he.boundary.start.t.micros >= -0x800_0000 && he.boundary.start.t.micros
            <= 0x800_0000,
        SurfacePath::Circle(c) => {
            if c.center.u.micros < -0x800_0000 || c.center.u.micros > 0x800_0000
                || c.center.v.micros < -0x800_0000 || c.center.v.micros > 0x800_0000
                || c.a.u.micros < -0x800_0000 || c.a.u.micros > 0x800_0000 || c.a.v.micros
                < -0x800_0000 || c.a.v.micros > 0x800_0000 || c.b.u.micros < -0x800_0000
                || c.b.u.micros > 0x800_0000 || c.b.v.micros < -0x800_0000 || c.b.v.micros
                > 0x800_0000 {
                return false;
            }
            proof {
                assert((c.a.u.micros as int) * (c.a.u.micros as int) <= 0x800_0000 * 0x800_0000
                    && (c.a.u.micros as int) * (c.a.u.micros as int) >= 0
                    && (c.a.v.micros as int) * (c.a.v.micros as int) <= 0x800_0000 * 0x800_0000
                    && (c.a.v.micros as int) * (c.a.v.micros as int) >= 0) by (nonlinear_arith)
                    requires
                        -0x800_0000 <= c.a.u.micros as int <= 0x800_0000,
                        -0x800_0000 <= c.a.v.micros as int <= 0x800_0000,
                {}
            }
            let mag2 = (c.a.u.micros as i128) * (c.a.u.micros as i128) + (c.a.v.micros as i128) * (
            c.a.v.micros as i128);
            mag2 >= 1
        },
    }
}

/// Check a cycle handle's half-edges against the approximator's bounds.
#[verifier::loop_isolation(false)]
fn check_cycle_approx_ok(objects: &Objects, cycle: &Cycle) -> (r: bool)
    ensures
        r == cycle_approx_ok(objects, *cycle),
{
    let mut i: usize = 0;
    let mut ok = true;
    while i < cycle.half_edges.len()
        invariant
            0 <= i <= cycle.half_edges@.len(),
            ok == forall|j: int|
                0 <= j < i ==> (#[trigger] cycle.half_edges@[j]).spec_id()
                    < objects.half_edges.view().len() && half_edge_small(
                    objects.half_edges.view()[cycle.half_edges@[j].spec_id() as int],
                ),
        decreases cycle.half_edges@.len() - i,
    {
        let handle = cycle.half_edges[i];
        if !objects.half_edges.contains(&handle) {
            ok = false;
        } else {
            let he = objects.half_edges.get(&handle);
            if !check_half_edge_small(he) {
                ok = false;
            }
        }
        i = i + 1;
    }
    ok
}

/// Check every precondition of `approx_face` against the stores: valid
/// handles throughout, a small plane surface, and small half-edge geometry on
/// every cycle. A front end can test an arbitrary face with this before
/// asking for its approximation.
#[verifier::loop_isolation(false)]
pub fn check_face_approx_ok(objects: &Objects, face: &Face) -> (r: bool)
    ensures
        r == face_approx_ok(objects, *face),
{
    if !objects.surfaces.contains(&face.surface) || !objects.regions.contains(&face.region) {
        return false;
    }
    let surface = objects.surfaces.get(&face.surface);
    if surface.origin.x.micros < -0x800_0000 || surface.origin.x.micros > 0x800_0000
        || surface.origin.y.micros < -0x800_0000 || surface.origin.y.micros > 0x800_0000
        || surface.origin.z.micros < -0x800_0000 || surface.origin.z.micros > 0x800_0000
        || surface.u.x.micros < -0x800_0000 || surface.u.x.micros > 0x800_0000
        || surface.u.y.micros < -0x800_0000 || surface.u.y.micros > 0x800_0000
        || surface.u.z.micros < -0x800_0000 || surface.u.z.micros > 0x800_0000
        || surface.v.x.micros < -0x800_0000 || surface.v.x.micros > 0x800_0000
        || surface.v.y.micros < -0x800_0000 || surface.v.y.micros > 0x800_0000
        || surface.v.z.micros < -0x800_0000 || surface.v.z.micros > 0x800_0000 {
        return false;
    }
    let region = objects.regions.get(&face.region);
    if !objects.cycles.contains(&region.exterior) {
        return false;
    }
    if !check_cycle_approx_ok(objects, objects.cycles.get(&region.exterior)) {
        return false;
    }
    let mut h: usize = 0;
    while h < region.interiors.len()
        invariant
            0 <= h <= region.interiors@.len(),
            region == objects.regions.view()[face.region.spec_id() as int],
            forall|q: int|
                0 <= q < h ==> (#[trigger] region.interiors@[q]).spec_id()
                    < objects.cycles.view().len() && cycle_approx_ok(
                    objects,
                    objects.cycles.view()[region.interiors@[q].spec_id() as int],
                ),
        decreases region.interiors@.len() - h,
    {
        if !objects.cycles.contains(&region.interiors[h]) {
            return false;
        }
        if !check_cycle_approx_ok(objects, objects.cycles.get(&region.interiors[h])) {
            return false;
        }
        h = h + 1;
    }
    true
}

/// Approximate a face: walk its exterior and interior cycles, assembling one
/// closed polygon loop per cycle, and carry the face's color and the
/// surface's handedness.
#[verifier::loop_isolation(false)]
pub fn approx_face(objects: &Objects, face: &Face, tolerance: Tolerance) -> (r: FaceApprox)
    requires
        face_approx_ok(objects, *face),
    ensures
        is_face_approx_of(objects, *face, tolerance, &r),
{
    let surface = *objects.surfaces.get(&face.surface);
    let region = objects.regions.get(&face.region);
    let exterior_cycle = objects.cycles.get(&region.exterior);
    let exterior = approx_cycle(objects, exterior_cycle, &surface, tolerance);
    let mut interiors: Vec<CycleApprox> = Vec::new();
    let ghost region_g = objects.regions.view()[face.region.spec_id() as int];
    let mut h: usize = 0;
    while h < region.interiors.len()
        invariant
            0 <= h <= region_g.interiors@.len(),
            interiors@.len() == h,
            forall|q: int|
                0 <= q < h ==> (#[trigger] interiors@[q]).points@ == spec_cycle_points(
                    objects.surfaces.view()[face.surface.spec_id() as int],
                    he_values(
                        objects,
                        objects.cycles.view()[region_g.interiors@[q].spec_id() as int].half_edges@,
                    ),
                    tolerance,
                ),
        decreases region_g.interiors@.len() - h,
    {
        let hole_cycle = objects.cycles.get(&region.interiors[h]);
        let hole = approx_cycle(objects, hole_cycle, &surface, tolerance);
        interiors.push(hole);
        h = h + 1;
    }
    let color = region.color;
    FaceApprox { exterior, interiors, color, coord_handedness: Handedness::Right }
}

/// The surface-local coordinates of a run of loop points.
pub open spec fn locals_of(s: Seq<ApproxPoint>) -> Seq<Point2> {
    Seq::new(s.len(), |i: int| s[i].local)
}

/// The global coordinates of a run of loop points.
pub open spec fn globals_of(s: Seq<ApproxPoint>) -> Seq<Point3> {
    Seq::new(s.len(), |i: int| s[i].global)
}

/// The face's loop points: the exterior loop followed by the first `h` hole
/// loops, in order.
pub open spec fn combined_points(f: &FaceApprox, h: int) -> Seq<ApproxPoint>
    decreases h,
{
    if h <= 0 {
        f.exterior.points@
    } else {
        combined_points(f, h - 1) + f.interiors@[h - 1].points@
    }
}

/// All of the face's loop points: the exterior loop followed by every hole
/// loop.
pub open spec fn all_points(f: &FaceApprox) -> Seq<ApproxPoint> {
    combined_points(f, f.interiors@.len() as int)
}

/// Whether a scaled point (three times the true coordinates) lies strictly in
/// the face's true polygon: inside the exterior loop and outside every hole
/// loop.
pub open spec fn face_contains_scaled_point(f: &FaceApprox, px: int, py: int) -> bool {
    &&& point_in_loop(locals_of(f.exterior.points@), px, py)
    &&& forall|h: int|
        0 <= h < f.interiors@.len() ==> !point_in_loop(
            locals_of((#[trigger] f.interiors@[h]).points@),
            px,
            py,
        )
}

/// Whether a mesh triangle is a sound triangle of this face: its three
/// corners are the global partners of three of the face's loop points whose
/// centroid (tested at three times the scale) lies strictly inside the
/// exterior loop and outside every hole loop.
pub open spec fn face_triangle_sound(
    f: &FaceApprox,
    vertices: Seq<Point3>,
    t: crate::mesh::TriangleIndices,
) -> bool {
    exists|ia: int, ib: int, ic: int|
        #![trigger all_points(f)[ia], all_points(f)[ib], all_points(f)[ic]]
        {
            &&& 0 <= ia < all_points(f).len()
            &&& 0 <= ib < all_points(f).len()
            &&& 0 <= ic < all_points(f).len()
            &&& t.a < vertices.len() && vertices[t.a as int] == all_points(f)[ia].global
            &&& t.b < vertices.len() && vertices[t.b as int] == all_points(f)[ib].global
            &&& t.c < vertices.len() && vertices[t.c as int] == all_points(f)[ic].global
            &&& spec_orient(
                all_points(f)[ia].local,
                all_points(f)[ib].local,
                all_points(f)[ic].local,
            ) != 0
            &&& face_contains_scaled_point(
                f,
                all_points(f)[ia].local.u.micros + all_points(f)[ib].local.u.micros + all_points(
                    f,
                )[ic].local.u.micros,
                all_points(f)[ia].local.v.micros + all_points(f)[ib].local.v.micros + all_points(
                    f,
                )[ic].local.v.micros,
            )
        }
}

impl FaceApprox {
    /// Triangulate the face into the provided mesh: gather the loops' points,
    /// triangulate them, keep only the triangles whose centroid lies strictly
    /// inside the exterior and outside every hole, and push the survivors
    /// with the face's color.
    ///
    /// The mesh only ever grows: everything already in it stays untouched. A
    /// face whose coordinates exceed the exact-arithmetic range, or whose
    /// triangles would overflow the mesh's index space, contributes nothing.
    #[verifier::loop_isolation(false)]
    #[verifier::rlimit(60)]
    pub fn triangulate_into_mesh(&self, mesh: &mut Mesh)
        requires
            old(mesh).wf(),
        ensures
            final(mesh).wf(),
            old(mesh).spec_vertices().len() <= final(mesh).spec_vertices().len(),
            forall|j: int|
                0 <= j < old(mesh).spec_vertices().len() ==> final(mesh).spec_vertices()[j] == old(mesh).spec_vertices()[j],
            old(mesh).spec_triangles().len() <= final(mesh).spec_triangles().len(),
            forall|j: int|
                0 <= j < old(mesh).spec_triangles().len() ==> final(mesh).spec_triangles()[j]
                    == old(mesh).spec_triangles()[j],
            forall|j: int|
                0 <= j < old(mesh).spec_colors().len() ==> final(mesh).spec_colors()[j] == old(mesh).spec_colors()[j],
            final(mesh).spec_colors().len() == final(mesh).spec_triangles().len(),
            forall|j: int|
                old(mesh).spec_colors().len() <= j < final(mesh).spec_colors().len() ==> final(mesh).spec_colors()[j] == (if self.color is Some {
                    self.color->0
                } else {
                    spec_color_unset()
                }),
            forall|j: int|
                old(mesh).spec_triangles().len() <= j < final(mesh).spec_triangles().len()
                    ==> face_triangle_sound(
                    self,
                    final(mesh).spec_vertices(),
                    #[trigger] final(mesh).spec_triangles()[j],
                ),
    {
        let color = match self.color {
            Some(c) => c,
            None => Color::unset(),
        };

        // gather every loop's points, exterior first, checking the range
        let mut locals: Vec<Point2> = Vec::new();
        let mut globals: Vec<Point3> = Vec::new();
        let mut exterior_locals: Vec<Point2> = Vec::new();
        let mut ok = true;
        let mut i: usize = 0;
        while i < self.exterior.points.len()
            invariant
                0 <= i <= self.exterior.points@.len(),
                locals@.len() == globals@.len(),
                exterior_locals@.len() <= locals@.len(),
                locals@.len() <= i,
                locals@.len() <= 0xFF_FFFF,
                ok ==> forall|q: int|
                    0 <= q < locals@.len() ==> poly_coord_ok(
                        (#[trigger] locals@[q]).u.micros as int,
                    ) && poly_coord_ok(locals@[q].v.micros as int),
                ok ==> poly_loop_ok_vec(exterior_locals@),
                ok ==> locals@ == locals_of(self.exterior.points@.take(i as int)),
                ok ==> globals@ == globals_of(self.exterior.points@.take(i as int)),
                ok ==> exterior_locals@ == locals@,
            decreases self.exterior.points@.len() - i,
        {
            let p = self.exterior.points[i];
            if p.local.u.micros < -POLY_COORD_LIMIT || p.local.u.micros > POLY_COORD_LIMIT
                || p.local.v.micros < -POLY_COORD_LIMIT || p.local.v.micros > POLY_COORD_LIMIT {
                ok = false;
            } else if locals.len() >= 0xFF_FFFF {
                ok = false;
            } else if ok {
                locals.push(p.local);
                globals.push(p.global);
                exterior_locals.push(p.local);
                proof {
                    assert(self.exterior.points@.take(i as int + 1) =~= self.exterior.points@.take(
                        i as int,
                    ).push(p));
                    assert(locals_of(self.exterior.points@.take(i as int + 1)) =~= locals_of(
                        self.exterior.points@.take(i as int),
                    ).push(p.local));
                    assert(globals_of(self.exterior.points@.take(i as int + 1)) =~= globals_of(
                        self.exterior.points@.take(i as int),
                    ).push(p.global));
                }
            }
            i = i + 1;
        }
        proof {
            if ok {
                assert(self.exterior.points@.take(self.exterior.points@.len() as int)
                    =~= self.exterior.points@);
            }
        }
        let mut hole_locals: Vec<Vec<Point2>> = Vec::new();
        let mut h: usize = 0;
        while h < self.interiors.len()
            invariant
                0 <= h <= self.interiors@.len(),
                locals@.len() == globals@.len(),
                locals@.len() <= 0xFF_FFFF,
                ok ==> forall|q: int|
                    0 <= q < locals@.len() ==> poly_coord_ok(
                        (#[trigger] locals@[q]).u.micros as int,
                    ) && poly_coord_ok(locals@[q].v.micros as int),
                ok ==> poly_loop_ok_vec(exterior_locals@),
                ok ==> forall|q: int|
                    0 <= q < hole_locals@.len() ==> poly_loop_ok_vec(
                        (#[trigger] hole_locals@[q])@,
                    ) && hole_locals@[q]@.len() < 0x1_0000_0000,
                exterior_locals@.len() < 0x1_0000_0000,
                hole_locals@.len() == h,
                ok ==> locals@ == locals_of(combined_points(self, h as int)),
                ok ==> globals@ == globals_of(combined_points(self, h as int)),
                ok ==> exterior_locals@ == locals_of(self.exterior.points@),
                ok ==> forall|q: int|
                    0 <= q < h ==> (#[trigger] hole_locals@[q])@ == locals_of(
                        self.interiors@[q].points@,
                    ),
            decreases self.interiors@.len() - h,
        {
            let cyc = &self.interiors[h];
            let mut one: Vec<Point2> = Vec::new();
            let mut i2: usize = 0;
            while i2 < cyc.points.len()
                invariant
                    0 <= i2 <= cyc.points@.len(),
                    0 <= h < self.interiors@.len(),
                    cyc.points@ == self.interiors@[h as int].points@,
                    locals@.len() == globals@.len(),
                    locals@.len() <= 0xFF_FFFF,
                    one@.len() <= i2,
                    ok ==> forall|q: int|
                        0 <= q < locals@.len() ==> poly_coord_ok(
                            (#[trigger] locals@[q]).u.micros as int,
                        ) && poly_coord_ok(locals@[q].v.micros as int),
                    ok ==> poly_loop_ok_vec(exterior_locals@),
                    ok ==> poly_loop_ok_vec(one@),
                    ok ==> forall|q: int|
                        0 <= q < hole_locals@.len() ==> poly_loop_ok_vec(
                            (#[trigger] hole_locals@[q])@,
                        ) && hole_locals@[q]@.len() < 0x1_0000_0000,
                    exterior_locals@.len() < 0x1_0000_0000,
                    one@.len() < 0x1_0000_0000,
                    hole_locals@.len() == h,
                    ok ==> locals@ == locals_of(
                        combined_points(self, h as int) + cyc.points@.take(i2 as int),
                    ),
                    ok ==> globals@ == globals_of(
                        combined_points(self, h as int) + cyc.points@.take(i2 as int),
                    ),
                    ok ==> one@ == locals_of(cyc.points@.take(i2 as int)),
                    ok ==> exterior_locals@ == locals_of(self.exterior.points@),
                    ok ==> forall|q: int|
                        0 <= q < h ==> (#[trigger] hole_locals@[q])@ == locals_of(
                            self.interiors@[q].points@,
                        ),
                decreases cyc.points@.len() - i2,
            {
                let p = cyc.points[i2];
                if p.local.u.micros < -POLY_COORD_LIMIT || p.local.u.micros > POLY_COORD_LIMIT
                    || p.local.v.micros < -POLY_COORD_LIMIT || p.local.v.micros
                    > POLY_COORD_LIMIT {
                    ok = false;
                } else if locals.len() >= 0xFF_FFFF {
                    ok = false;
                } else if ok {
                    locals.push(p.local);
                    globals.push(p.global);
                    one.push(p.local);
                    proof {
                        let run = combined_points(self, h as int);
                        assert(run + cyc.points@.take(i2 as int + 1) =~= (run + cyc.points@.take(
                            i2 as int,
                        )).push(p));
                        assert(locals_of((run + cyc.points@.take(i2 as int)).push(p)) =~= locals_of(
                            run + cyc.points@.take(i2 as int),
                        ).push(p.local));
                        assert(globals_of((run + cyc.points@.take(i2 as int)).push(p))
                            =~= globals_of(run + cyc.points@.take(i2 as int)).push(p.global));
                        assert(locals_of(cyc.points@.take(i2 as int + 1)) =~= locals_of(
                            cyc.points@.take(i2 as int),
                        ).push(p.local));
                    }
                }
                i2 = i2 + 1;
            }
            proof {
                if ok {
                    assert(cyc.points@.take(cyc.points@.len() as int) =~= cyc.points@);
                    assert(combined_points(self, h as int + 1) == combined_points(self, h as int)
                        + self.interiors@[h as int].points@);
                }
            }
            hole_locals.push(one);
            h = h + 1;
        }
        proof {
            if ok {
                assert(locals@ == locals_of(all_points(self)));
                assert(globals@ == globals_of(all_points(self)));
            }
        }
        if !ok || locals.len() >= 0x1000_0000 || hole_locals.len() >= 0xFF_FFFF {
            return ;
        }

        // the loops' boundary edges are the triangulation constraints
        let mut constraints: Vec<(usize, usize)> = Vec::new();
        let ext_len = exterior_locals.len();
        let mut i3: usize = 0;
        while i3 < ext_len
            invariant
                ext_len == exterior_locals@.len(),
                exterior_locals@.len() < 0x1_0000_0000,
            decreases ext_len - i3,
        {
            constraints.push((i3, if i3 + 1 == ext_len { 0 } else { i3 + 1 }));
            i3 = i3 + 1;
        }
        let mut base: usize = ext_len;
        let mut h2: usize = 0;
        while h2 < hole_locals.len()
            invariant
                base <= 0xFFFF_FFFFusize,
                ext_len < 0x1_0000_0000,
            decreases hole_locals@.len() - h2,
        {
            let m = hole_locals[h2].len();
            if m <= 0xFF_FFFF && base <= 0xFF00_0000 {
                let mut i4: usize = 0;
                while i4 < m
                    invariant
                        m <= 0xFF_FFFF,
                        base <= 0xFF00_0000,
                    decreases m - i4,
                {
                    constraints.push((base + i4, if i4 + 1 == m { base } else { base + i4 + 1 }));
                    i4 = i4 + 1;
                }
                base = base + m;
            }
            h2 = h2 + 1;
        }

        let polygon = Polygon { exterior: exterior_locals, interiors: hole_locals };
        proof {
            assert(polygon.interiors@.len() == self.interiors@.len());
        }
        let tris = triangulate_points(&locals, &constraints);

        let ghost old_mesh = *mesh;
        let mut t: usize = 0;
        while t < tris.len()
            invariant
                mesh.wf(),
                locals@.len() == globals@.len(),
                polygon.wf(),
                locals@ == locals_of(all_points(self)),
                globals@ == globals_of(all_points(self)),
                polygon.exterior@ == locals_of(self.exterior.points@),
                polygon.interiors@.len() == self.interiors@.len(),
                forall|q: int|
                    0 <= q < polygon.interiors@.len() ==> (#[trigger] polygon.interiors@[q])@
                        == locals_of(self.interiors@[q].points@),
                forall|j: int|
                    old_mesh.spec_triangles().len() <= j < mesh.spec_triangles().len()
                        ==> face_triangle_sound(
                        self,
                        mesh.spec_vertices(),
                        #[trigger] mesh.spec_triangles()[j],
                    ),
                forall|q: int|
                    0 <= q < locals@.len() ==> poly_coord_ok(
                        (#[trigger] locals@[q]).u.micros as int,
                    ) && poly_coord_ok(locals@[q].v.micros as int),
                forall|q: int|
                    0 <= q < tris@.len() ==> tri_ok(#[trigger] tris@[q], locals@.len() as int)
                        && spec_orient(
                        locals@[tris@[q].a as int],
                        locals@[tris@[q].b as int],
                        locals@[tris@[q].c as int],
                    ) > 0,
                old_mesh.spec_vertices().len() <= mesh.spec_vertices().len(),
                forall|j: int|
                    0 <= j < old_mesh.spec_vertices().len() ==> mesh.spec_vertices()[j]
                        == old_mesh.spec_vertices()[j],
                old_mesh.spec_triangles().len() <= mesh.spec_triangles().len(),
                forall|j: int|
                    0 <= j < old_mesh.spec_triangles().len() ==> mesh.spec_triangles()[j]
                        == old_mesh.spec_triangles()[j],
                forall|j: int|
                    0 <= j < old_mesh.spec_colors().len() ==> mesh.spec_colors()[j]
                        == old_mesh.spec_colors()[j],
                mesh.spec_colors().len() == mesh.spec_triangles().len(),
                old_mesh.spec_colors().len() == old_mesh.spec_triangles().len(),
                forall|j: int|
                    old_mesh.spec_colors().len() <= j < mesh.spec_colors().len()
                        ==> mesh.spec_colors()[j] == color,
            decreases tris@.len() - t,
        {
            let tri = tris[t];
            let a2 = locals[tri.a];
            let b2 = locals[tri.b];
            let c2 = locals[tri.c];
            if polygon.contains_triangle(a2, b2, c2) {
                let g0 = globals[tri.a];
                let g1 = globals[tri.b];
                let g2 = globals[tri.c];
                let distinct = !(g0 == g1) && !(g0 == g2) && !(g1 == g2);
                if distinct && mesh.vertices().len() < 0xFFFF_0000 {
                    let ghost before = *mesh;
                    let ghost px = a2.u.micros + b2.u.micros + c2.u.micros;
                    let ghost py = a2.v.micros + b2.v.micros + c2.v.micros;
                    // the surface's handedness decides the emitted winding: a
                    // left-handed frame flips it, so the triangle keeps facing
                    // outward under reflection-containing transforms
                    let (w1, w2) = match self.coord_handedness {
                        Handedness::Right => (g1, g2),
                        Handedness::Left => (g2, g1),
                    };
                    mesh.push_triangle(g0, w1, w2, color);
                    proof {
                        crate::mesh::lemma_add_vertex_props(before.spec_vertices(), g0);
                        let (s0, _) = crate::mesh::spec_add_vertex(before.spec_vertices(), g0);
                        crate::mesh::lemma_add_vertex_props(s0, w1);
                        let (s1, _) = crate::mesh::spec_add_vertex(s0, w1);
                        crate::mesh::lemma_add_vertex_props(s1, w2);
                        // the polygon's verdict carries over to the face's loops
                        assert(face_contains_scaled_point(self, px, py)) by {
                            assert forall|q: int| 0 <= q < self.interiors@.len() implies !point_in_loop(
                                locals_of((#[trigger] self.interiors@[q]).points@),
                                px,
                                py,
                            ) by {
                                assert(!point_in_loop((polygon.interiors@[q])@, px, py));
                            }
                        }
                        // the appended triangle is sound: its corners are the
                        // global partners of the three filtered loop points
                        let nt = mesh.spec_triangles().last();
                        let pts = all_points(self);
                        assert(mesh.spec_vertices()[nt.a as int] == g0);
                        assert(mesh.spec_vertices()[nt.b as int] == w1);
                        assert(mesh.spec_vertices()[nt.c as int] == w2);
                        assert(pts[tri.a as int].local == a2 && pts[tri.a as int].global == g0);
                        assert(pts[tri.b as int].local == b2 && pts[tri.b as int].global == g1);
                        assert(pts[tri.c as int].local == c2 && pts[tri.c as int].global == g2);
                        assert(spec_orient(a2, b2, c2) > 0);
                        assert(spec_orient(a2, c2, b2) == -spec_orient(a2, b2, c2))
                            by (nonlinear_arith)
                        {}
                        assert(face_triangle_sound(self, mesh.spec_vertices(), nt));
                        // triangles appended earlier stay sound: the vertex
                        // buffer only grew, so their corners are unchanged
                        assert forall|j: int|
                            old_mesh.spec_triangles().len() <= j < mesh.spec_triangles().len()
                                - 1 implies face_triangle_sound(
                            self,
                            mesh.spec_vertices(),
                            #[trigger] mesh.spec_triangles()[j],
                        ) by {
                            let tj = before.spec_triangles()[j];
                            assert(face_triangle_sound(self, before.spec_vertices(), tj));
                            let (ia, ib, ic) = choose|ia: int, ib: int, ic: int|
                                #![trigger all_points(self)[ia], all_points(self)[ib], all_points(self)[ic]]
                                {
                                    &&& 0 <= ia < all_points(self).len()
                                    &&& 0 <= ib < all_points(self).len()
                                    &&& 0 <= ic < all_points(self).len()
                                    &&& tj.a < before.spec_vertices().len() && before.spec_vertices()[tj.a as int] == all_points(self)[ia].global
                                    &&& tj.b < before.spec_vertices().len() && before.spec_vertices()[tj.b as int] == all_points(self)[ib].global
                                    &&& tj.c < before.spec_vertices().len() && before.spec_vertices()[tj.c as int] == all_points(self)[ic].global
                                    &&& spec_orient(
                                        all_points(self)[ia].local,
                                        all_points(self)[ib].local,
                                        all_points(self)[ic].local,
                                    ) != 0
                                    &&& face_contains_scaled_point(
                                        self,
                                        all_points(self)[ia].local.u.micros + all_points(self)[ib].local.u.micros + all_points(self)[ic].local.u.micros,
                                        all_points(self)[ia].local.v.micros + all_points(self)[ib].local.v.micros + all_points(self)[ic].local.v.micros,
                                    )
                                };
                            assert(mesh.spec_vertices()[tj.a as int] == all_points(self)[ia].global);
                            assert(mesh.spec_vertices()[tj.b as int] == all_points(self)[ib].global);
                            assert(mesh.spec_vertices()[tj.c as int] == all_points(self)[ic].global);
                            assert(mesh.spec_triangles()[j] == tj);
                        }
                    }
                }
            }
            t = t + 1;
        }
    }

    /// Triangulate the face into a fresh mesh: only triangles whose centroid
    /// lies strictly inside the exterior loop and outside every hole loop,
    /// each built from the global partners of the face's own loop points, and
    /// each carrying the face's color.
    pub fn triangulate(&self) -> (r: Mesh)
        ensures
            r.wf(),
            r.spec_colors().len() == r.spec_triangles().len(),
            forall|j: int|
                0 <= j < r.spec_colors().len() ==> r.spec_colors()[j] == (if self.color is Some {
                    self.color->0
                } else {
                    spec_color_unset()
                }),
            forall|j: int|
                0 <= j < r.spec_triangles().len() ==> face_triangle_sound(
                    self,
                    r.spec_vertices(),
                    #[trigger] r.spec_triangles()[j],
                ),
    {
        let mut mesh = Mesh::new();
        self.triangulate_into_mesh(&mut mesh);
        mesh
    }
}

/// Every coordinate of the loop is within the triangulation bound.
pub open spec fn poly_loop_ok_vec(l: Seq<Point2>) -> bool {
    forall|i: int|
        0 <= i < l.len() ==> poly_coord_ok((#[trigger] l[i]).u.micros as int) && poly_coord_ok(
            l[i].v.micros as int,
        )
}

} // verus!
