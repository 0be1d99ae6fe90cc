//! Sweeping a shape along a path.
//!
//! A sweep copies the shape's faces as the bottom, translates them along the
//! path for the top, and builds the side walls by sweeping each boundary
//! cycle's edges into quads, split into two triangles each. One side face is
//! built per swept edge, so a cycle of several edges produces several side
//! faces, one per wall.

use vstd::prelude::*;

use crate::math::{Point3, Scalar, Vector3};

verus! {

/// A straight edge between two vertices, in global coordinates.
#[derive(Clone, Copy, Debug, PartialEq, Eq, Structural)]
pub struct Edge {
    /// The edge's first vertex.
    pub a: Point3,
    /// The edge's second vertex.
    pub b: Point3,
}

impl Edge {
    /// Create a line segment between two vertices.
    pub fn line_segment(a: Point3, b: Point3) -> (r: Edge)
        ensures
            r.a == a && r.b == b,
    {
        Edge { a, b }
    }
}

/// A closed loop of edges.
pub struct Cycle {
    /// The edges of the cycle, in traversal order.
    pub edges: Vec<Edge>,
}

/// All edges of a shape, grouped into cycles.
pub struct Edges {
    /// The cycles.
    pub cycles: Vec<Cycle>,
}

impl Edges {
    /// A single cycle from a list of edges.
    pub fn single_cycle(edges: Vec<Edge>) -> (r: Edges)
        ensures
            r.cycles@.len() == 1,
            r.cycles@[0].edges@ == edges@,
    {
        let mut cycles: Vec<Cycle> = Vec::new();
        cycles.push(Cycle { edges });
        Edges { cycles }
    }
}

/// A plane, described by a point and two spanning directions.
#[derive(Clone, Copy, Debug, PartialEq, Eq, Structural)]
pub struct Swept {
    /// A point of the plane.
    pub origin: Point3,
    /// The first spanning direction.
    pub u: Vector3,
    /// The second spanning direction.
    pub v: Vector3,
}

impl Swept {
    /// The plane through three points.
    pub fn plane_from_points(a: Point3, b: Point3, c: Point3) -> (r: Swept)
        requires
            -0x1000_0000_0000_0000i64 <= a.x.micros <= 0x1000_0000_0000_0000i64,
            -0x1000_0000_0000_0000i64 <= a.y.micros <= 0x1000_0000_0000_0000i64,
            -0x1000_0000_0000_0000i64 <= a.z.micros <= 0x1000_0000_0000_0000i64,
            -0x1000_0000_0000_0000i64 <= b.x.micros <= 0x1000_0000_0000_0000i64,
            -0x1000_0000_0000_0000i64 <= b.y.micros <= 0x1000_0000_0000_0000i64,
            -0x1000_0000_0000_0000i64 <= b.z.micros <= 0x1000_0000_0000_0000i64,
            -0x1000_0000_0000_0000i64 <= c.x.micros <= 0x1000_0000_0000_0000i64,
            -0x1000_0000_0000_0000i64 <= c.y.micros <= 0x1000_0000_0000_0000i64,
            -0x1000_0000_0000_0000i64 <= c.z.micros <= 0x1000_0000_0000_0000i64,
        ensures
            r.origin == a,
            r.u.x.micros == b.x.micros - a.x.micros,
            r.u.y.micros == b.y.micros - a.y.micros,
            r.u.z.micros == b.z.micros - a.z.micros,
            r.v.x.micros == c.x.micros - a.x.micros,
            r.v.y.micros == c.y.micros - a.y.micros,
            r.v.z.micros == c.z.micros - a.z.micros,
    {
        Swept {
            origin: a,
            u: Vector3 {
                x: Scalar { micros: b.x.micros - a.x.micros },
                y: Scalar { micros: b.y.micros - a.y.micros },
                z: Scalar { micros: b.z.micros - a.z.micros },
            },
            v: Vector3 {
                x: Scalar { micros: c.x.micros - a.x.micros },
                y: Scalar { micros: c.y.micros - a.y.micros },
                z: Scalar { micros: c.z.micros - a.z.micros },
            },
        }
    }
}

/// A surface a face lies in.
#[derive(Clone, Copy, Debug, PartialEq, Eq, Structural)]
pub enum Surface {
    /// A plane described by a swept point.
    Swept(Swept),
}

/// A triangle in global coordinates.
#[derive(Clone, Copy, Debug, PartialEq, Eq, Structural)]
pub struct Triangle3 {
    /// The first corner.
    pub a: Point3,
    /// The second corner.
    pub b: Point3,
    /// The third corner.
    pub c: Point3,
}

/// A face of a shape.
pub enum Face {
    /// A face described by its surface and boundary edges.
    Face {
        /// The surface the face lies in.
        surface: Surface,
        /// The boundary of the face.
        edges: Edges,
    },
    /// A face described directly by triangles.
    Triangles(Vec<Triangle3>),
}

/// The faces of a shape.
pub struct Faces(pub Vec<Face>);

/// A shape: vertices, edge cycles and faces.
pub struct Shape {
    /// The vertices.
    pub vertices: Vec<Point3>,
    /// The edges, grouped into cycles.
    pub edges: Edges,
    /// The faces.
    pub faces: Faces,
}

/// Adding a vector to a point, coordinate-wise and exact.
pub open spec fn spec_point_plus(p: Point3, v: Vector3) -> Point3 {
    Point3 {
        x: Scalar { micros: (p.x.micros + v.x.micros) as i64 },
        y: Scalar { micros: (p.y.micros + v.y.micros) as i64 },
        z: Scalar { micros: (p.z.micros + v.z.micros) as i64 },
    }
}

/// A coordinate small enough to survive a handful of additions.
pub open spec fn sweep_coord_ok(x: int) -> bool {
    -0x1000_0000_0000_0000 <= x <= 0x1000_0000_0000_0000
}

/// Every coordinate of the point is in the safe range.
pub open spec fn sweep_point_ok(p: Point3) -> bool {
    sweep_coord_ok(p.x.micros as int) && sweep_coord_ok(p.y.micros as int) && sweep_coord_ok(
        p.z.micros as int,
    )
}

/// Every coordinate of the vector is in the safe range.
pub open spec fn sweep_vector_ok(v: Vector3) -> bool {
    sweep_coord_ok(v.x.micros as int) && sweep_coord_ok(v.y.micros as int) && sweep_coord_ok(
        v.z.micros as int,
    )
}

/// Both endpoints of the edge are in the safe range.
pub open spec fn sweep_edge_ok(e: Edge) -> bool {
    sweep_point_ok(e.a) && sweep_point_ok(e.b)
}

/// Every edge of the cycle is in the safe range.
pub open spec fn sweep_cycle_ok(c: &Cycle) -> bool {
    forall|i: int| 0 <= i < c.edges@.len() ==> sweep_edge_ok(#[trigger] c.edges@[i])
}

/// Every face coordinate is in the safe range.
pub open spec fn sweep_face_ok(f: &Face) -> bool {
    match f {
        Face::Face { surface, edges } => {
            &&& (surface matches Surface::Swept(s) && sweep_point_ok(s.origin))
            &&& forall|c: int|
                0 <= c < edges.cycles@.len() ==> sweep_cycle_ok(&#[trigger] edges.cycles@[c])
        },
        Face::Triangles(ts) => forall|i: int|
            0 <= i < ts@.len() ==> sweep_point_ok((#[trigger] ts@[i]).a) && sweep_point_ok(ts@[i].b)
                && sweep_point_ok(ts@[i].c),
    }
}

/// Whether `f2` is `f1` moved by `v`: same shape of face, every coordinate
/// translated, the plane's spanning directions untouched.
pub open spec fn face_translated(f1: &Face, f2: &Face, v: Vector3) -> bool {
    match (f1, f2) {
        (Face::Face { surface: s1, edges: e1 }, Face::Face { surface: s2, edges: e2 }) => {
            &&& (s1 matches Surface::Swept(p1) && s2 matches Surface::Swept(p2)
                && p2.origin == spec_point_plus(p1.origin, v) && p2.u == p1.u && p2.v == p1.v)
            &&& e2.cycles@.len() == e1.cycles@.len()
            &&& forall|c: int|
                0 <= c < e1.cycles@.len() ==> (#[trigger] e2.cycles@[c]).edges@.len()
                    == e1.cycles@[c].edges@.len()
            &&& forall|c: int, i: int|
                0 <= c < e1.cycles@.len() && 0 <= i < e1.cycles@[c].edges@.len() ==> (
                #[trigger] e2.cycles@[c].edges@[i]) == (Edge {
                    a: spec_point_plus(e1.cycles@[c].edges@[i].a, v),
                    b: spec_point_plus(e1.cycles@[c].edges@[i].b, v),
                })
        },
        (Face::Triangles(t1), Face::Triangles(t2)) => {
            &&& t2@.len() == t1@.len()
            &&& forall|i: int|
                0 <= i < t1@.len() ==> (#[trigger] t2@[i]) == (Triangle3 {
                    a: spec_point_plus(t1@[i].a, v),
                    b: spec_point_plus(t1@[i].b, v),
                    c: spec_point_plus(t1@[i].c, v),
                })
        },
        _ => false,
    }
}

/// Whether `f` is the side wall of sweeping `e` along `v`: the quad over the
/// edge, split into two triangles.
pub open spec fn side_face_of_edge(e: Edge, v: Vector3, f: &Face) -> bool {
    f matches Face::Triangles(ts) && ts@.len() == 2 && ts@[0] == (Triangle3 {
        a: e.a,
        b: e.b,
        c: spec_point_plus(e.b, v),
    }) && ts@[1] == (Triangle3 { a: e.a, b: spec_point_plus(e.b, v), c: spec_point_plus(e.a, v) })
}

/// How many edges the first `k` cycles hold together.
pub open spec fn edge_count_upto(cycles: Seq<Cycle>, k: int) -> int
    decreases k,
{
    if k <= 0 {
        0
    } else {
        edge_count_upto(cycles, k - 1) + cycles[k - 1].edges@.len()
    }
}

/// The cycle prefix sums never shrink.
proof fn lemma_edge_count_monotone(cycles: Seq<Cycle>, k: int)
    requires
        0 <= k,
    ensures
        edge_count_upto(cycles, k) >= 0,
    decreases k,
{
    if k > 0 {
        lemma_edge_count_monotone(cycles, k - 1);
    }
}

/// An earlier cycle's edges all lie before a later prefix sum.
proof fn lemma_edge_count_window(cycles: Seq<Cycle>, q: int, c: int)
    requires
        0 <= q < c,
    ensures
        edge_count_upto(cycles, q) >= 0,
        edge_count_upto(cycles, q) + cycles[q].edges@.len() <= edge_count_upto(cycles, c),
    decreases c,
{
    lemma_edge_count_monotone(cycles, q);
    if c > q + 1 {
        lemma_edge_count_window(cycles, q, c - 1);
    }
}

impl Shape {
    /// An empty shape.
    pub fn new() -> (r: Shape)
        ensures
            r.vertices@.len() == 0,
            r.edges.cycles@.len() == 0,
            r.faces.0@.len() == 0,
    {
        Shape { vertices: Vec::new(), edges: Edges { cycles: Vec::new() }, faces: Faces(Vec::new()) }
    }

    /// Create a vertex at the given point and record it in the shape.
    pub fn create_vertex(&mut self, point: Point3) -> (r: Point3)
        ensures
            r == point,
            final(self).vertices@ == old(self).vertices@.push(point),
            final(self).edges.cycles@ == old(self).edges.cycles@,
            final(self).faces.0@ == old(self).faces.0@,
    {
        self.vertices.push(point);
        point
    }
}

impl Faces {
    /// Whether the list holds a face equal to the given one.
    #[verifier::loop_isolation(false)]
    pub fn contains(&self, face: &Face) -> (r: bool)
        ensures
            r == exists|i: int| 0 <= i < self.0@.len() && face_eq_spec(&self.0@[i], face),
    {
        let mut i: usize = 0;
        while i < self.0.len()
            invariant
                0 <= i <= self.0@.len(),
                forall|j: int| 0 <= j < i ==> !face_eq_spec(&self.0@[j], face),
            decreases self.0@.len() - i,
        {
            if face_eq(&self.0[i], face) {
                proof {
                    assert(face_eq_spec(&self.0@[i as int], face));
                }
                return true;
            }
            i = i + 1;
        }
        false
    }
}

/// Structural equality of two faces.
pub open spec fn face_eq_spec(f1: &Face, f2: &Face) -> bool {
    match (f1, f2) {
        (Face::Face { surface: s1, edges: e1 }, Face::Face { surface: s2, edges: e2 }) => {
            &&& s1 == s2
            &&& e1.cycles@.len() == e2.cycles@.len()
            &&& forall|c: int|
                0 <= c < e1.cycles@.len() ==> (#[trigger] e1.cycles@[c]).edges@
                    == e2.cycles@[c].edges@
        },
        (Face::Triangles(t1), Face::Triangles(t2)) => t1@ == t2@,
        _ => false,
    }
}

/// Compare two faces structurally.
#[verifier::loop_isolation(false)]
pub fn face_eq(f1: &Face, f2: &Face) -> (r: bool)
    ensures
        r == face_eq_spec(f1, f2),
{
    match (f1, f2) {
        (Face::Face { surface: s1, edges: e1 }, Face::Face { surface: s2, edges: e2 }) => {
            if !(s1 == s2) {
                return false;
            }
            if e1.cycles.len() != e2.cycles.len() {
                return false;
            }
            let mut c: usize = 0;
            while c < e1.cycles.len()
                invariant
                    0 <= c <= e1.cycles@.len(),
                    e1.cycles@.len() == e2.cycles@.len(),
                    forall|q: int| 0 <= q < c ==> (#[trigger] e1.cycles@[q]).edges@
                        == e2.cycles@[q].edges@,
                decreases e1.cycles@.len() - c,
            {
                let a = &e1.cycles[c];
                let b = &e2.cycles[c];
                if a.edges.len() != b.edges.len() {
                    proof {
                        assert(e1.cycles@[c as int].edges@.len()
                            != e2.cycles@[c as int].edges@.len());
                    }
                    return false;
                }
                let mut i: usize = 0;
                while i < a.edges.len()
                    invariant
                        0 <= i <= a.edges@.len(),
                        a.edges@.len() == b.edges@.len(),
                        forall|q: int| 0 <= q < i ==> a.edges@[q] == b.edges@[q],
                    decreases a.edges@.len() - i,
                {
                    if !(a.edges[i] == b.edges[i]) {
                        proof {
                            assert(e1.cycles@[c as int].edges@[i as int]
                                != e2.cycles@[c as int].edges@[i as int]);
                        }
                        return false;
                    }
                    i = i + 1;
                }
                proof {
                    assert(a.edges@ =~= b.edges@);
                }
                c = c + 1;
            }
            true
        },
        (Face::Triangles(t1), Face::Triangles(t2)) => {
            if t1.len() != t2.len() {
                return false;
            }
            let mut i: usize = 0;
            while i < t1.len()
                invariant
                    0 <= i <= t1@.len(),
                    t1@.len() == t2@.len(),
                    forall|q: int| 0 <= q < i ==> t1@[q] == t2@[q],
                decreases t1@.len() - i,
            {
                if !(t1[i] == t2[i]) {
                    proof {
                        assert(t1@[i as int] != t2@[i as int]);
                    }
                    return false;
                }
                i = i + 1;
            }
            proof {
                assert(t1@ =~= t2@);
            }
            true
        },
        _ => false,
    }
}

/// Add a vector to a point.
fn point_plus(p: Point3, v: Vector3) -> (r: Point3)
    requires
        sweep_point_ok(p),
        sweep_vector_ok(v),
    ensures
        r == spec_point_plus(p, v),
{
    Point3 {
        x: Scalar { micros: p.x.micros + v.x.micros },
        y: Scalar { micros: p.y.micros + v.y.micros },
        z: Scalar { micros: p.z.micros + v.z.micros },
    }
}

/// Translate a face by a vector.
#[verifier::loop_isolation(false)]
pub fn transform_face(face: &Face, translation: Vector3) -> (r: Face)
    requires
        sweep_face_ok(face),
        sweep_vector_ok(translation),
    ensures
        face_translated(face, &r, translation),
{
    match face {
        Face::Face { surface, edges } => {
            let Surface::Swept(plane) = surface;
            let new_surface = Surface::Swept(
                Swept { origin: point_plus(plane.origin, translation), u: plane.u, v: plane.v },
            );
            let mut cycles: Vec<Cycle> = Vec::new();
            let mut c: usize = 0;
            while c < edges.cycles.len()
                invariant
                    0 <= c <= edges.cycles@.len(),
                    cycles@.len() == c,
                    sweep_vector_ok(translation),
                    forall|q: int|
                        0 <= q < edges.cycles@.len() ==> sweep_cycle_ok(
                            &#[trigger] edges.cycles@[q],
                        ),
                    forall|q: int|
                        0 <= q < c ==> (#[trigger] cycles@[q]).edges@.len()
                            == edges.cycles@[q].edges@.len(),
                    forall|q: int, i: int|
                        0 <= q < c && 0 <= i < edges.cycles@[q].edges@.len() ==> (
                        #[trigger] cycles@[q].edges@[i]) == (Edge {
                            a: spec_point_plus(edges.cycles@[q].edges@[i].a, translation),
                            b: spec_point_plus(edges.cycles@[q].edges@[i].b, translation),
                        }),
                decreases edges.cycles@.len() - c,
            {
                let cycle = &edges.cycles[c];
                let mut new_edges: Vec<Edge> = Vec::new();
                let mut i: usize = 0;
                while i < cycle.edges.len()
                    invariant
                        0 <= i <= cycle.edges@.len(),
                        new_edges@.len() == i,
                        sweep_vector_ok(translation),
                        sweep_cycle_ok(cycle),
                        forall|q: int|
                            0 <= q < i ==> (#[trigger] new_edges@[q]) == (Edge {
                                a: spec_point_plus(cycle.edges@[q].a, translation),
                                b: spec_point_plus(cycle.edges@[q].b, translation),
                            }),
                    decreases cycle.edges@.len() - i,
                {
                    let e = cycle.edges[i];
                    new_edges.push(
                        Edge {
                            a: point_plus(e.a, translation),
                            b: point_plus(e.b, translation),
                        },
                    );
                    i = i + 1;
                }
                cycles.push(Cycle { edges: new_edges });
                c = c + 1;
            }
            Face::Face { surface: new_surface, edges: Edges { cycles } }
        },
        Face::Triangles(ts) => {
            let mut new_ts: Vec<Triangle3> = Vec::new();
            let mut i: usize = 0;
            while i < ts.len()
                invariant
                    0 <= i <= ts@.len(),
                    new_ts@.len() == i,
                    sweep_vector_ok(translation),
                    forall|q: int|
                        0 <= q < ts@.len() ==> sweep_point_ok((#[trigger] ts@[q]).a)
                            && sweep_point_ok(ts@[q].b) && sweep_point_ok(ts@[q].c),
                    forall|q: int|
                        0 <= q < i ==> (#[trigger] new_ts@[q]) == (Triangle3 {
                            a: spec_point_plus(ts@[q].a, translation),
                            b: spec_point_plus(ts@[q].b, translation),
                            c: spec_point_plus(ts@[q].c, translation),
                        }),
                decreases ts@.len() - i,
            {
                let t = ts[i];
                new_ts.push(
                    Triangle3 {
                        a: point_plus(t.a, translation),
                        b: point_plus(t.b, translation),
                        c: point_plus(t.c, translation),
                    },
                );
                i = i + 1;
            }
            Face::Triangles(new_ts)
        },
    }
}

/// Copy a face, structurally equal to the original.
#[verifier::loop_isolation(false)]
fn clone_face(face: &Face) -> (r: Face)
    ensures
        face_eq_spec(&r, face),
{
    match face {
        Face::Face { surface, edges } => {
            let mut cycles: Vec<Cycle> = Vec::new();
            let mut c: usize = 0;
            while c < edges.cycles.len()
                invariant
                    0 <= c <= edges.cycles@.len(),
                    cycles@.len() == c,
                    forall|q: int| 0 <= q < c ==> (#[trigger] cycles@[q]).edges@
                        == edges.cycles@[q].edges@,
                decreases edges.cycles@.len() - c,
            {
                let cycle = &edges.cycles[c];
                let mut new_edges: Vec<Edge> = Vec::new();
                let mut i: usize = 0;
                while i < cycle.edges.len()
                    invariant
                        0 <= i <= cycle.edges@.len(),
                        new_edges@.len() == i,
                        forall|q: int| 0 <= q < i ==> new_edges@[q] == cycle.edges@[q],
                    decreases cycle.edges@.len() - i,
                {
                    new_edges.push(cycle.edges[i]);
                    i = i + 1;
                }
                proof {
                    assert(new_edges@ =~= cycle.edges@);
                }
                cycles.push(Cycle { edges: new_edges });
                c = c + 1;
            }
            Face::Face { surface: *surface, edges: Edges { cycles } }
        },
        Face::Triangles(ts) => {
            let mut new_ts: Vec<Triangle3> = Vec::new();
            let mut i: usize = 0;
            while i < ts.len()
                invariant
                    0 <= i <= ts@.len(),
                    new_ts@.len() == i,
                    forall|q: int| 0 <= q < i ==> new_ts@[q] == ts@[q],
                decreases ts@.len() - i,
            {
                new_ts.push(ts[i]);
                i = i + 1;
            }
            proof {
                assert(new_ts@ =~= ts@);
            }
            Face::Triangles(new_ts)
        },
    }
}

/// Every face coordinate of the shape is in the safe range, and so is every
/// cycle edge.
pub open spec fn sweep_shape_ok(shape: &Shape) -> bool {
    &&& forall|i: int| 0 <= i < shape.faces.0@.len() ==> sweep_face_ok(&#[trigger] shape.faces.0@[i])
    &&& forall|c: int|
        0 <= c < shape.edges.cycles@.len() ==> sweep_cycle_ok(&#[trigger] shape.edges.cycles@[c])
}

/// Create a new shape by sweeping an existing one along a path.
///
/// The result holds, in order: every original face (the bottom), every face
/// translated along the path (the top), and one side face per edge of each
/// boundary cycle, each the swept quad split into two triangles. The
/// `tolerance` is carried for curve approximation; a shape of straight edges
/// does not consult it.
#[verifier::loop_isolation(false)]
pub fn sweep_shape(original: &Shape, path: Vector3, tolerance: Scalar) -> (r: Shape)
    requires
        sweep_shape_ok(original),
        sweep_vector_ok(path),
    ensures
        ({
            let n = original.faces.0@.len() as int;
            let cycles = original.edges.cycles@;
            let total = edge_count_upto(cycles, cycles.len() as int);
            &&& r.faces.0@.len() == 2 * n + total
            &&& forall|i: int|
                0 <= i < n ==> face_eq_spec(&#[trigger] r.faces.0@[i], &original.faces.0@[i])
            &&& forall|i: int|
                0 <= i < n ==> face_translated(&original.faces.0@[i], &#[trigger] r.faces.0@[n + i], path)
            &&& forall|c: int, e: int|
                0 <= c < cycles.len() && 0 <= e < cycles[c].edges@.len() ==> side_face_of_edge(
                    cycles[c].edges@[e],
                    path,
                    &#[trigger] r.faces.0@[2 * n + edge_count_upto(cycles, c) + e],
                )
        }),
{
    let ghost cycles_g = original.edges.cycles@;
    let ghost n = original.faces.0@.len() as int;
    let mut faces: Vec<Face> = Vec::new();

    let mut i: usize = 0;
    while i < original.faces.0.len()
        invariant
            0 <= i <= original.faces.0@.len(),
            faces@.len() == i,
            sweep_shape_ok(original),
            forall|q: int|
                0 <= q < i ==> face_eq_spec(&#[trigger] faces@[q], &original.faces.0@[q]),
        decreases original.faces.0@.len() - i,
    {
        let f = clone_face(&original.faces.0[i]);
        faces.push(f);
        i = i + 1;
    }

    let mut i: usize = 0;
    while i < original.faces.0.len()
        invariant
            0 <= i <= original.faces.0@.len(),
            faces@.len() == original.faces.0@.len() + i,
            sweep_shape_ok(original),
            sweep_vector_ok(path),
            forall|q: int|
                0 <= q < original.faces.0@.len() ==> face_eq_spec(
                    &#[trigger] faces@[q],
                    &original.faces.0@[q],
                ),
            forall|q: int|
                0 <= q < i ==> face_translated(
                    &original.faces.0@[q],
                    &#[trigger] faces@[original.faces.0@.len() + q],
                    path,
                ),
        decreases original.faces.0@.len() - i,
    {
        let f = transform_face(&original.faces.0[i], path);
        faces.push(f);
        i = i + 1;
    }

    let mut c: usize = 0;
    while c < original.edges.cycles.len()
        invariant
            0 <= c <= cycles_g.len(),
            cycles_g == original.edges.cycles@,
            n == original.faces.0@.len() as int,
            faces@.len() == 2 * n + edge_count_upto(cycles_g, c as int),
            sweep_shape_ok(original),
            sweep_vector_ok(path),
            forall|q: int|
                0 <= q < n ==> face_eq_spec(&#[trigger] faces@[q], &original.faces.0@[q]),
            forall|q: int|
                0 <= q < n ==> face_translated(&original.faces.0@[q], &#[trigger] faces@[n + q], path),
            forall|q: int, e: int|
                0 <= q < c && 0 <= e < cycles_g[q].edges@.len() ==> side_face_of_edge(
                    cycles_g[q].edges@[e],
                    path,
                    &#[trigger] faces@[2 * n + edge_count_upto(cycles_g, q) + e],
                ),
        decreases cycles_g.len() - c,
    {
        let cycle = &original.edges.cycles[c];
        let ghost before = edge_count_upto(cycles_g, c as int);
        proof {
            lemma_edge_count_monotone(cycles_g, c as int);
        }
        let mut e: usize = 0;
        while e < cycle.edges.len()
            invariant
                0 <= e <= cycle.edges@.len(),
                0 <= c < cycles_g.len(),
                cycles_g == original.edges.cycles@,
                n == original.faces.0@.len() as int,
                cycle.edges@ == cycles_g[c as int].edges@,
                before == edge_count_upto(cycles_g, c as int),
                before >= 0,
                faces@.len() == 2 * n + before + e,
                sweep_shape_ok(original),
                sweep_vector_ok(path),
                sweep_cycle_ok(cycle),
                forall|q: int|
                    0 <= q < n ==> face_eq_spec(&#[trigger] faces@[q], &original.faces.0@[q]),
                forall|q: int|
                    0 <= q < n ==> face_translated(
                        &original.faces.0@[q],
                        &#[trigger] faces@[n + q],
                        path,
                    ),
                forall|q: int, w: int|
                    0 <= q < c && 0 <= w < cycles_g[q].edges@.len() ==> side_face_of_edge(
                        cycles_g[q].edges@[w],
                        path,
                        &#[trigger] faces@[2 * n + edge_count_upto(cycles_g, q) + w],
                    ),
                forall|w: int|
                    0 <= w < e ==> side_face_of_edge(
                        cycles_g[c as int].edges@[w],
                        path,
                        &#[trigger] faces@[2 * n + before + w],
                    ),
            decreases cycle.edges@.len() - e,
        {
            let seg = cycle.edges[e];
            let v0 = seg.a;
            let v1 = seg.b;
            let v2 = point_plus(seg.b, path);
            let v3 = point_plus(seg.a, path);
            let mut side: Vec<Triangle3> = Vec::new();
            side.push(Triangle3 { a: v0, b: v1, c: v2 });
            side.push(Triangle3 { a: v0, b: v2, c: v3 });
            faces.push(Face::Triangles(side));
            proof {
                assert forall|q: int, w: int|
                    0 <= q < c && 0 <= w < cycles_g[q].edges@.len() implies side_face_of_edge(
                    cycles_g[q].edges@[w],
                    path,
                    &faces@[2 * n + edge_count_upto(cycles_g, q) + w],
                ) by {
                    lemma_edge_count_window(cycles_g, q, c as int);
                }
            }
            e = e + 1;
        }
        proof {
            assert(edge_count_upto(cycles_g, c as int + 1) == edge_count_upto(cycles_g, c as int)
                + cycles_g[c as int].edges@.len());
            assert forall|q: int, w: int|
                0 <= q < c as int + 1 && 0 <= w < cycles_g[q].edges@.len() implies side_face_of_edge(
                cycles_g[q].edges@[w],
                path,
                &faces@[2 * n + edge_count_upto(cycles_g, q) + w],
            ) by {
                if q == c as int {
                    assert(side_face_of_edge(
                        cycles_g[q].edges@[w],
                        path,
                        &faces@[2 * n + before + w],
                    ));
                }
            }
        }
        c = c + 1;
    }

    let _ = tolerance;
    Shape { vertices: Vec::new(), edges: Edges { cycles: Vec::new() }, faces: Faces(faces) }
}

} // verus!
