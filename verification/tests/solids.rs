//! Sweeping shapes and cache-consistent transforms over the object graph.

use brep::merge::MergeWith;
use brep::math::{Point3, Scalar, Vector3};
use brep::objects::{Curve, GlobalEdge, HalfEdge, Object, Vertex};
use brep::services::Services;
use brep::storage::Handle;
use brep::sweep::{sweep_shape, Edge, Edges, Face, Shape, Surface, Swept};
use brep::transform::{Transform, TransformCache};

fn p3(x: i64, y: i64, z: i64) -> Point3 {
    Point3 { x: Scalar { micros: x }, y: Scalar { micros: y }, z: Scalar { micros: z } }
}

fn v3(x: i64, y: i64, z: i64) -> Vector3 {
    Vector3 { x: Scalar { micros: x }, y: Scalar { micros: y }, z: Scalar { micros: z } }
}

const U: i64 = 1_000_000;

fn triangle_face(a: Point3, b: Point3, c: Point3) -> Face {
    let ab = Edge::line_segment(a, b);
    let bc = Edge::line_segment(b, c);
    let ca = Edge::line_segment(c, a);
    Face::Face {
        surface: Surface::Swept(Swept::plane_from_points(a, b, c)),
        edges: Edges::single_cycle(vec![ab, bc, ca]),
    }
}

#[test]
fn sweep() {
    // a triangle sketch
    let mut shape = Shape::new();
    let a = shape.create_vertex(p3(0, 0, 0));
    let b = shape.create_vertex(p3(U, 0, 0));
    let c = shape.create_vertex(p3(0, U, 0));
    let abc = triangle_face(a, b, c);
    shape.faces.0.push(triangle_face(a, b, c));

    let swept = sweep_shape(&shape, v3(0, 0, U), Scalar::from_micros(0));

    // the original face is still a face of the swept shape (the bottom)
    assert!(swept.faces.contains(&abc));
}

#[test]
fn sweep_builds_top_and_sides() {
    let mut shape = Shape::new();
    let a = shape.create_vertex(p3(0, 0, 0));
    let b = shape.create_vertex(p3(U, 0, 0));
    shape.faces.0.push(Face::Triangles(vec![]));
    shape.edges.cycles.push(brep::sweep::Cycle { edges: vec![Edge::line_segment(a, b)] });

    let swept = sweep_shape(&shape, v3(0, 0, U), Scalar::from_micros(0));

    // bottom + top + one side wall per swept edge
    assert_eq!(swept.faces.0.len(), 3);
    match &swept.faces.0[2] {
        Face::Triangles(ts) => {
            assert_eq!(ts.len(), 2);
            assert_eq!(ts[0].a, p3(0, 0, 0));
            assert_eq!(ts[0].b, p3(U, 0, 0));
            assert_eq!(ts[0].c, p3(U, 0, U));
            assert_eq!(ts[1].a, p3(0, 0, 0));
            assert_eq!(ts[1].b, p3(U, 0, U));
            assert_eq!(ts[1].c, p3(0, 0, U));
        }
        _ => panic!("side face must be triangles"),
    }
}

#[test]
fn shared_edge_is_transformed_once() {
    let mut services = Services::new();
    let transform = Transform::translation(v3(0, 0, U));
    let mut cache = TransformCache::new();

    let g_id = services.insert_object(Object::GlobalEdge(GlobalEdge {}));
    let shared: Handle<GlobalEdge> = Handle::from_id(g_id.id);

    let first = transform.transform_global_edge_with_cache(shared, &mut services, &mut cache.global_edges);
    let stores_after_first = services.objects.global_edges.len();
    let second = transform.transform_global_edge_with_cache(shared, &mut services, &mut cache.global_edges);
    let stores_after_second = services.objects.global_edges.len();

    // both parents reference the identical transformed result, and the
    // second request allocated nothing
    assert_eq!(first.id(), second.id());
    assert_eq!(stores_after_first, stores_after_second);
}

#[test]
fn half_edges_sharing_children_share_transforms() {
    let mut services = Services::new();
    let transform = Transform::translation(v3(0, 0, U));
    let mut cache = TransformCache::new();

    let v_id = services.insert_object(Object::Vertex(Vertex { point: p3(U, 0, 0) }));
    let c_id = services.insert_object(Object::Curve(Curve {}));
    let g_id = services.insert_object(Object::GlobalEdge(GlobalEdge {}));

    let (path, coords) = brep::geometry::SurfacePath::line_from_points(
        brep::math::Point2 { u: Scalar { micros: 0 }, v: Scalar { micros: 0 } },
        brep::math::Point2 { u: Scalar { micros: U }, v: Scalar { micros: 0 } },
    );
    let he = HalfEdge {
        path,
        boundary: brep::approx::BoundaryOnCurve { start: coords[0], end: coords[1] },
        curve: Handle::from_id(c_id.id),
        start_vertex: Handle::from_id(v_id.id),
        global_form: Handle::from_id(g_id.id),
    };
    let he1_id = services.insert_object(Object::HalfEdge(he));
    let he2_id = services.insert_object(Object::HalfEdge(he));

    let new1 = transform.transform_half_edge_with_cache(
        Handle::from_id(he1_id.id),
        &mut services,
        &mut cache,
    );
    let new2 = transform.transform_half_edge_with_cache(
        Handle::from_id(he2_id.id),
        &mut services,
        &mut cache,
    );

    let t1 = *services.objects.half_edges.get(&new1);
    let t2 = *services.objects.half_edges.get(&new2);

    // the shared curve, vertex and edge identity were each transformed once
    assert_eq!(t1.curve.id(), t2.curve.id());
    assert_eq!(t1.start_vertex.id(), t2.start_vertex.id());
    assert_eq!(t1.global_form.id(), t2.global_form.id());

    // the vertex really moved
    let moved = *services.objects.vertices.get(&t1.start_vertex);
    assert_eq!(moved.point, p3(U, 0, U));

    // the local path is untouched by the ambient transform
    assert_eq!(t1.path, path);
}

#[test]
fn merge_accepts_same_identity() {
    let a: Handle<Curve> = Handle::from_id(4);
    let b: Handle<Curve> = Handle::from_id(4);
    let merged = a.merge_with(b);
    assert_eq!(merged.id(), 4);

    let some: Option<Handle<Curve>> = Some(Handle::from_id(4));
    let none: Option<Handle<Curve>> = None;
    assert_eq!(some.merge_with(none).unwrap().id(), 4);
    assert_eq!(none.merge_with(some).unwrap().id(), 4);
    assert_eq!(some.merge_with(some).unwrap().id(), 4);
    assert!(none.merge_with(none).is_none());
}

#[test]
fn translating_a_path_moves_only_its_points() {
    let line = brep::geometry::GlobalPath::line_from_points(p3(0, 0, 0), p3(U, 0, 0)).0;
    let transform = Transform::translation(v3(0, 0, U));
    let moved = line.transform(&transform);
    match moved {
        brep::geometry::GlobalPath::Line(l) => {
            assert_eq!(l.origin, p3(0, 0, U));
            assert_eq!(l.direction.x.micros, U);
            assert_eq!(l.direction.z.micros, 0);
        }
        _ => panic!("a translated line stays a line"),
    }

    let circle = brep::geometry::GlobalPath::circle_from_radius(Scalar { micros: U });
    assert_eq!(circle.origin(), p3(U, 0, 0));
    let moved = circle.transform(&transform);
    match moved {
        brep::geometry::GlobalPath::Circle(c) => {
            assert_eq!(c.center, p3(0, 0, U));
            assert_eq!(c.a.x.micros, U);
        }
        _ => panic!("a translated circle stays a circle"),
    }
}

#[test]
fn mesh_triangles_carry_their_color() {
    let mut mesh = brep::mesh::Mesh::new();
    let red = brep::mesh::Color { r: 255, g: 0, b: 0, a: 255 };
    mesh.push_triangle(p3(0, 0, 0), p3(U, 0, 0), p3(0, U, 0), red);
    mesh.triangle(p3(0, 0, 0), p3(U, 0, 0), p3(0, 0, U));
    assert_eq!(mesh.colors()[0], red);
    assert_eq!(mesh.colors()[1], brep::mesh::Color { r: 255, g: 255, b: 255, a: 255 });
}

#[test]
fn rotation_moves_points_and_vectors() {
    // a quarter turn around the z-axis: x lands on y, y lands on -x
    let quarter = Transform {
        basis_x: v3(0, U, 0),
        basis_y: v3(-U, 0, 0),
        basis_z: v3(0, 0, U),
        translation: v3(0, 0, 0),
    };
    assert_eq!(quarter.transform_point(p3(U, 0, 0)), p3(0, U, 0));
    assert_eq!(quarter.transform_point(p3(0, U, 0)), p3(-U, 0, 0));
    assert_eq!(quarter.transform_vector(v3(U, U, 0)), v3(-U, U, 0));

    // rotating a circle turns its radius vectors too
    let circle = brep::geometry::GlobalPath::circle_from_radius(Scalar { micros: U });
    match circle.transform(&quarter) {
        brep::geometry::GlobalPath::Circle(c) => {
            assert_eq!(c.a, v3(0, U, 0));
            assert_eq!(c.b, v3(-U, 0, 0));
        }
        _ => panic!("a rotated circle stays a circle"),
    }
}

#[test]
fn approximable_faces_are_recognised() {
    let mut services = Services::new();
    let surface = services.objects.xy_plane();

    // a face whose region handle dangles is rejected
    let bad = brep::objects::Face { surface, region: Handle::from_id(9) };
    assert!(!brep::face::check_face_approx_ok(&services.objects, &bad));
}
