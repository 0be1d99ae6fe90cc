//! Face triangulation: coverage, concavity correction and hole exclusion.

use brep::approx::BoundaryOnCurve;
use brep::face::{approx_face, ApproxPoint, CycleApprox, FaceApprox, Handedness};
use brep::geometry::SurfacePath;
use brep::math::{Point2, Point3, Scalar, Tolerance};
use brep::mesh::Mesh;
use brep::objects::{Curve, Cycle, Face, GlobalEdge, HalfEdge, Object, Region, Vertex};
use brep::services::Services;
use brep::storage::Handle;

fn pt2(p: [i64; 2]) -> Point2 {
    Point2 { u: Scalar { micros: p[0] }, v: Scalar { micros: p[1] } }
}

fn pt3(p: [i64; 2]) -> Point3 {
    Point3 {
        x: Scalar { micros: p[0] },
        y: Scalar { micros: p[1] },
        z: Scalar { micros: 0 },
    }
}

fn polygon_cycle(services: &mut Services, corners: &[[i64; 2]]) -> Handle<Cycle> {
    let mut hes: Vec<Handle<HalfEdge>> = Vec::new();
    for i in 0..corners.len() {
        let p = corners[i];
        let q = corners[(i + 1) % corners.len()];
        let (path, coords) = SurfacePath::line_from_points(pt2(p), pt2(q));
        let v_id = services.insert_object(Object::Vertex(Vertex { point: pt3(p) }));
        let c_id = services.insert_object(Object::Curve(Curve {}));
        let g_id = services.insert_object(Object::GlobalEdge(GlobalEdge {}));
        let he = HalfEdge {
            path,
            boundary: BoundaryOnCurve { start: coords[0], end: coords[1] },
            curve: Handle::from_id(c_id.id),
            start_vertex: Handle::from_id(v_id.id),
            global_form: Handle::from_id(g_id.id),
        };
        let he_id = services.insert_object(Object::HalfEdge(he));
        hes.push(Handle::from_id(he_id.id));
    }
    let cy = services.insert_object(Object::Cycle(Cycle { half_edges: hes }));
    Handle::from_id(cy.id)
}

fn polygon_face(services: &mut Services, corners: &[[i64; 2]], holes: &[&[[i64; 2]]]) -> Face {
    let surface = services.objects.xy_plane();
    let exterior = polygon_cycle(services, corners);
    let mut interiors: Vec<Handle<Cycle>> = Vec::new();
    for hole in holes {
        interiors.push(polygon_cycle(services, hole));
    }
    let region_id =
        services.insert_object(Object::Region(Region { exterior, interiors, color: None }));
    Face { surface, region: Handle::from_id(region_id.id) }
}

fn triangulate_face(services: &mut Services, face: &Face) -> Mesh {
    let tolerance = Tolerance::from_scalar(Scalar::one()).unwrap();
    let approx = approx_face(&services.objects, face, tolerance);
    approx.triangulate()
}

fn contains_triangle(mesh: &Mesh, tri: [[i64; 2]; 3]) -> bool {
    let expected: Vec<Point3> = tri.iter().map(|p| pt3(*p)).collect();
    let vertices = mesh.vertices();
    for t in mesh.triangles().iter() {
        let got = [
            vertices[t.a as usize],
            vertices[t.b as usize],
            vertices[t.c as usize],
        ];
        let all_there = expected.iter().all(|e| got.iter().any(|g| g == e));
        let none_extra = got.iter().all(|g| expected.iter().any(|e| e == g));
        if all_there && none_extra {
            return true;
        }
    }
    false
}

const U: i64 = 1_000_000;

#[test]
fn simple() {
    let mut services = Services::new();

    let a = [0, 0];
    let b = [2 * U, 0];
    let c = [2 * U, 2 * U];
    let d = [0, U];

    let face = polygon_face(&mut services, &[a, b, c, d], &[]);
    let triangles = triangulate_face(&mut services, &face);

    assert!(contains_triangle(&triangles, [a, b, d]));
    assert!(contains_triangle(&triangles, [b, c, d]));
    assert!(!contains_triangle(&triangles, [a, b, c]));
    assert!(!contains_triangle(&triangles, [a, c, d]));
}

#[test]
fn simple_hole() {
    let mut services = Services::new();

    let a = [0, 0];
    let b = [4 * U, 0];
    let c = [4 * U, 4 * U];
    let d = [0, 4 * U];

    let e = [U, U];
    let f = [U, 2 * U];
    let g = [3 * U, 3 * U];
    let h = [3 * U, U];

    let face = polygon_face(&mut services, &[a, b, c, d], &[&[e, f, g, h]]);
    let triangles = triangulate_face(&mut services, &face);

    // some correct triangles must be present
    assert!(contains_triangle(&triangles, [a, b, e]));
    assert!(contains_triangle(&triangles, [b, e, h]));

    // and no possible triangle from the hole
    assert!(!contains_triangle(&triangles, [e, f, g]));
    assert!(!contains_triangle(&triangles, [e, g, h]));
    assert!(!contains_triangle(&triangles, [e, f, h]));
    assert!(!contains_triangle(&triangles, [f, g, h]));
}

#[test]
fn sharp_concave_shape() {
    let mut services = Services::new();

    //   e       c
    //   |\     /|
    //   \ \   / b
    //    \ \ / /
    //     \ d /
    //      \a/
    //
    // naive unconstrained triangulation produces (c, d, e), which lies
    // outside the polygon; the filter must reject it while keeping the
    // true interior covered

    let a = [U, 0];
    let b = [2 * U, 8 * U];
    let c = [2 * U, 9 * U];
    let d = [U, U];
    let e = [0, 9 * U];

    let face = polygon_face(&mut services, &[a, b, c, d, e], &[]);
    let triangles = triangulate_face(&mut services, &face);

    assert!(contains_triangle(&triangles, [a, b, d]));
    assert!(contains_triangle(&triangles, [a, d, e]));
    assert!(contains_triangle(&triangles, [b, c, d]));
    assert!(!contains_triangle(&triangles, [c, d, e]));
}

#[test]
fn pipeline_runs_are_bit_identical() {
    let mut services = Services::new();

    let corners = [[0, 0], [3 * U, 0], [3 * U, 2 * U], [0, 2 * U]];
    let face = polygon_face(&mut services, &corners, &[]);

    let first = triangulate_face(&mut services, &face);
    let second = triangulate_face(&mut services, &face);

    assert_eq!(first.vertices(), second.vertices());
    assert_eq!(first.triangles(), second.triangles());
    assert_eq!(first.colors(), second.colors());
}

#[test]
fn mesh_deduplicates_vertices() {
    let mut mesh = Mesh::new();
    let a = pt3([0, 0]);
    let b = pt3([U, 0]);
    let c = pt3([0, U]);
    let d = pt3([U, U]);
    mesh.triangle(a, b, c);
    mesh.triangle(b, d, c);
    assert_eq!(mesh.vertices().len(), 4);
    assert_eq!(mesh.triangles().len(), 2);
    assert_eq!(mesh.indices().len(), 6);
    // the shared vertices reuse their slots
    let t0 = mesh.triangles()[0];
    let t1 = mesh.triangles()[1];
    assert_eq!(t0.b, t1.a);
    assert_eq!(t0.c, t1.c);
}

#[test]
fn validation_reports_dangling_references() {
    let mut services = Services::new();

    // a half-edge whose children were never inserted
    let (path, coords) = SurfacePath::line_from_points(pt2([0, 0]), pt2([U, 0]));
    let he = HalfEdge {
        path,
        boundary: BoundaryOnCurve { start: coords[0], end: coords[1] },
        curve: Handle::from_id(7),
        start_vertex: Handle::from_id(9),
        global_form: Handle::from_id(11),
    };
    let bad_id = services.insert_object(Object::HalfEdge(he));

    let result = services.drop_and_validate();
    let errors = result.unwrap_err();
    assert_eq!(errors.0.len(), 1);
    assert_eq!(errors.0[0].object, bad_id);
}

#[test]
fn only_validate_forgets_other_errors() {
    let mut services = Services::new();

    let (path, coords) = SurfacePath::line_from_points(pt2([0, 0]), pt2([U, 0]));
    let he = HalfEdge {
        path,
        boundary: BoundaryOnCurve { start: coords[0], end: coords[1] },
        curve: Handle::from_id(7),
        start_vertex: Handle::from_id(9),
        global_form: Handle::from_id(11),
    };
    let bad_id = services.insert_object(Object::HalfEdge(he));

    // validating an empty set forgets the recorded error
    services.only_validate(&Vec::new());
    assert!(services.drop_and_validate().is_ok());
    let _ = bad_id;
}

#[test]
fn only_validate_checks_against_current_stores() {
    let mut services = Services::new();

    // a half-edge inserted before its children exist fails validation
    let (path, coords) = SurfacePath::line_from_points(pt2([0, 0]), pt2([U, 0]));
    let he = HalfEdge {
        path,
        boundary: BoundaryOnCurve { start: coords[0], end: coords[1] },
        curve: Handle::from_id(0),
        start_vertex: Handle::from_id(0),
        global_form: Handle::from_id(0),
    };
    let he_id = services.insert_object(Object::HalfEdge(he));
    services.only_validate(&vec![he_id]);
    // the children still do not exist, so the error stays
    {
        let mut probe = Services::new();
        probe.insert_object(Object::HalfEdge(he));
        probe.only_validate(&vec![he_id]);
        assert!(probe.drop_and_validate().is_err());
    }

    // once the children are inserted, re-validation clears the error
    services.insert_object(Object::Curve(Curve {}));
    services.insert_object(Object::Vertex(Vertex { point: pt3([0, 0]) }));
    services.insert_object(Object::GlobalEdge(GlobalEdge {}));
    services.only_validate(&vec![he_id]);
    assert!(services.drop_and_validate().is_ok());
}

#[test]
fn handedness_controls_winding() {
    let corners = [[0, 0], [2 * U, 0], [0, 2 * U]];
    let loop_points = |_| -> Vec<ApproxPoint> {
        corners.iter().map(|p| ApproxPoint { local: pt2(*p), global: pt3(*p) }).collect()
    };

    let right = FaceApprox {
        exterior: CycleApprox { points: loop_points(()) },
        interiors: Vec::new(),
        color: None,
        coord_handedness: Handedness::Right,
    };
    let left = FaceApprox {
        exterior: CycleApprox { points: loop_points(()) },
        interiors: Vec::new(),
        color: None,
        coord_handedness: Handedness::Left,
    };

    let mr = right.triangulate();
    let ml = left.triangulate();
    assert_eq!(mr.triangles().len(), 1);
    assert_eq!(ml.triangles().len(), 1);
    let tr = mr.triangles()[0];
    let tl = ml.triangles()[0];
    // same corner set, opposite winding
    assert_eq!(mr.vertices()[tr.a as usize], ml.vertices()[tl.a as usize]);
    assert_eq!(mr.vertices()[tr.b as usize], ml.vertices()[tl.c as usize]);
    assert_eq!(mr.vertices()[tr.c as usize], ml.vertices()[tl.b as usize]);
}
