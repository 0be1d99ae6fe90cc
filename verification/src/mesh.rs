//! A triangle mesh: a deduplicated vertex buffer plus a triangle index list,
//! with one color per triangle.
//!
//! Vertex identity is exact coordinate equality, so reuse is deterministic:
//! the mesh a sequence of `triangle` calls builds is a pure function of the
//! calls, which is what makes whole-pipeline runs repeatable bit for bit.

use vstd::prelude::*;

use crate::math::Point3;

verus! {

/// An RGBA color, one byte per channel.
#[derive(Clone, Copy, Debug, PartialEq, Eq, Structural)]
pub struct Color {
    /// Red
    pub r: u8,
    /// Green
    pub g: u8,
    /// Blue
    pub b: u8,
    /// Alpha
    pub a: u8,
}

impl Color {
    /// Opaque white, the color of a face that was never painted.
    pub fn unset() -> (r: Color)
        ensures
            r == spec_color_unset(),
    {
        Color { r: 255, g: 255, b: 255, a: 255 }
    }
}

/// Opaque white, the color of a face that was never painted.
pub open spec fn spec_color_unset() -> Color {
    Color { r: 255, g: 255, b: 255, a: 255 }
}

/// The three vertex indices of one mesh triangle.
#[derive(Clone, Copy, Debug, PartialEq, Eq, Structural)]
pub struct TriangleIndices {
    /// Index of the first vertex.
    pub a: u32,
    /// Index of the second vertex.
    pub b: u32,
    /// Index of the third vertex.
    pub c: u32,
}

/// Whether a vertex buffer holds `v` anywhere.
pub open spec fn contains_vertex(s: Seq<Point3>, v: Point3) -> bool {
    exists|j: int| 0 <= j < s.len() && s[j] == v
}

/// Whether `i` is the first slot of `v` in the buffer.
pub open spec fn is_first_index(s: Seq<Point3>, v: Point3, i: int) -> bool {
    &&& 0 <= i < s.len()
    &&& s[i] == v
    &&& forall|j: int| 0 <= j < i ==> s[j] != v
}

/// The first slot of `v` in the buffer; meaningful when the buffer holds `v`.
pub open spec fn vertex_index(s: Seq<Point3>, v: Point3) -> int {
    choose|i: int| is_first_index(s, v, i)
}

/// No vertex value occupies two slots: the buffer is deduplicated, so
/// distinct slots always mean distinct points in space.
pub open spec fn vertices_deduped(s: Seq<Point3>) -> bool {
    forall|i: int, j: int| 0 <= i < j < s.len() ==> s[i] != s[j]
}

/// Reusing or appending a vertex: the buffer afterwards, and the slot the
/// vertex ends up in.
pub open spec fn spec_add_vertex(s: Seq<Point3>, v: Point3) -> (Seq<Point3>, int) {
    if contains_vertex(s, v) {
        (s, vertex_index(s, v))
    } else {
        (s.push(v), s.len() as int)
    }
}

/// What `spec_add_vertex` guarantees: the slot holds the vertex, and the
/// buffer only ever grows by appending.
pub proof fn lemma_add_vertex_props(s: Seq<Point3>, v: Point3)
    ensures
        ({
            let (s2, i) = spec_add_vertex(s, v);
            &&& 0 <= i < s2.len()
            &&& s2[i] == v
            &&& s.len() <= s2.len() <= s.len() + 1
            &&& forall|j: int| 0 <= j < s.len() ==> s2[j] == s[j]
        }),
{
    if contains_vertex(s, v) {
        let w = choose|j: int| 0 <= j < s.len() && s[j] == v;
        let first = first_occurrence(s, v, w);
        assert(is_first_index(s, v, first));
        let i = vertex_index(s, v);
        assert(is_first_index(s, v, i));
    }
}

/// Reusing or appending a vertex keeps the buffer deduplicated.
pub proof fn lemma_add_vertex_preserves_dedup(s: Seq<Point3>, v: Point3)
    requires
        vertices_deduped(s),
    ensures
        vertices_deduped(spec_add_vertex(s, v).0),
{
    if !contains_vertex(s, v) {
        let s2 = s.push(v);
        assert forall|i: int, j: int| 0 <= i < j < s2.len() implies s2[i] != s2[j] by {
            if j == s.len() {
                assert(s[i] != v);
            }
        }
    }
}

/// The earliest slot of `v` at or before a known occurrence.
proof fn first_occurrence(s: Seq<Point3>, v: Point3, w: int) -> (r: int)
    requires
        0 <= w < s.len(),
        s[w] == v,
    ensures
        is_first_index(s, v, r),
    decreases w,
{
    if exists|j: int| 0 <= j < w && s[j] == v {
        let j = choose|j: int| 0 <= j < w && s[j] == v;
        first_occurrence(s, v, j)
    } else {
        w
    }
}

/// A triangle mesh.
pub struct Mesh {
    vertices: Vec<Point3>,
    triangles: Vec<TriangleIndices>,
    colors: Vec<Color>,
}

impl Mesh {
    /// The mesh is consistent: one color per triangle, every index in range,
    /// a deduplicated vertex buffer, and no degenerate triangle — the three
    /// slots are pairwise distinct, and with the deduplicated buffer that
    /// means three pairwise distinct points in space.
    pub open spec fn wf(&self) -> bool {
        &&& self.spec_triangles().len() == self.spec_colors().len()
        &&& vertices_deduped(self.spec_vertices())
        &&& forall|i: int|
            0 <= i < self.spec_triangles().len() ==> {
                let t = #[trigger] self.spec_triangles()[i];
                &&& t.a < self.spec_vertices().len()
                &&& t.b < self.spec_vertices().len()
                &&& t.c < self.spec_vertices().len()
                &&& t.a != t.b && t.a != t.c && t.b != t.c
            }
    }

    /// The deduplicated vertex buffer, for contracts.
    pub closed spec fn spec_vertices(&self) -> Seq<Point3> {
        self.vertices@
    }

    /// The triangle index list, for contracts.
    pub closed spec fn spec_triangles(&self) -> Seq<TriangleIndices> {
        self.triangles@
    }

    /// The per-triangle colors, for contracts.
    pub closed spec fn spec_colors(&self) -> Seq<Color> {
        self.colors@
    }

    /// Create an empty triangle mesh.
    pub fn new() -> (r: Mesh)
        ensures
            r.wf(),
            r.spec_vertices() =~= Seq::<Point3>::empty(),
            r.spec_triangles() =~= Seq::<TriangleIndices>::empty(),
            r.spec_colors() =~= Seq::<Color>::empty(),
    {
        Mesh { vertices: Vec::new(), triangles: Vec::new(), colors: Vec::new() }
    }

    /// The slot of `vertex`, appending it if the buffer does not hold it yet.
    fn index_for_vertex(&mut self, vertex: Point3) -> (i: u32)
        requires
            old(self).spec_vertices().len() < 0xFFFF_FFFF,
        ensures
            final(self).spec_triangles() == old(self).spec_triangles(),
            final(self).spec_colors() == old(self).spec_colors(),
            final(self).spec_vertices() == spec_add_vertex(old(self).spec_vertices(), vertex).0,
            i as int == spec_add_vertex(old(self).spec_vertices(), vertex).1,
    {
        let ghost s = self.vertices@;
        let mut j: usize = 0;
        while j < self.vertices.len()
            invariant
                0 <= j <= self.vertices@.len(),
                self.vertices@ == s,
                s.len() < 0xFFFF_FFFF,
                forall|q: int| 0 <= q < j ==> s[q] != vertex,
            decreases self.vertices@.len() - j,
        {
            let c = self.vertices[j];
            if c.x.micros == vertex.x.micros && c.y.micros == vertex.y.micros && c.z.micros
                == vertex.z.micros {
                proof {
                    assert(s[j as int] == vertex);
                    assert(is_first_index(s, vertex, j as int));
                    let i = vertex_index(s, vertex);
                    assert(is_first_index(s, vertex, i));
                    if i < j as int {
                        assert(s[i] == vertex);
                        assert(false);
                    }
                    if (j as int) < i {
                        assert(s[j as int] != vertex);
                        assert(false);
                    }
                    assert(i == j as int);
                }
                return j as u32;
            }
            j = j + 1;
        }
        proof {
            assert(!contains_vertex(s, vertex));
        }
        let i = self.vertices.len();
        self.vertices.push(vertex);
        i as u32
    }

    /// Add a triangle to the mesh with an explicit color.
    ///
    /// The three vertices must be pairwise distinct: a degenerate triangle is
    /// a defect in the caller's logic, and the mesh never holds one.
    pub fn push_triangle(&mut self, v0: Point3, v1: Point3, v2: Point3, color: Color)
        requires
            old(self).wf(),
            v0 != v1,
            v0 != v2,
            v1 != v2,
            old(self).spec_vertices().len() + 3 < 0xFFFF_FFFF,
        ensures
            final(self).wf(),
            ({
                let (s0, i0) = spec_add_vertex(old(self).spec_vertices(), v0);
                let (s1, i1) = spec_add_vertex(s0, v1);
                let (s2, i2) = spec_add_vertex(s1, v2);
                &&& final(self).spec_vertices() == s2
                &&& final(self).spec_triangles() == old(self).spec_triangles().push(
                    TriangleIndices { a: i0 as u32, b: i1 as u32, c: i2 as u32 },
                )
                &&& final(self).spec_colors() == old(self).spec_colors().push(color)
            }),
    {
        proof {
            lemma_add_vertex_props(self.vertices@, v0);
            lemma_add_vertex_preserves_dedup(self.vertices@, v0);
            let (s0, _) = spec_add_vertex(self.vertices@, v0);
            lemma_add_vertex_props(s0, v1);
            lemma_add_vertex_preserves_dedup(s0, v1);
            let (s1, _) = spec_add_vertex(s0, v1);
            lemma_add_vertex_props(s1, v2);
            lemma_add_vertex_preserves_dedup(s1, v2);
        }
        let i0 = self.index_for_vertex(v0);
        let i1 = self.index_for_vertex(v1);
        let i2 = self.index_for_vertex(v2);
        self.triangles.push(TriangleIndices { a: i0, b: i1, c: i2 });
        self.colors.push(color);
    }

    /// Add a triangle to the mesh with the default color.
    ///
    /// The three vertices must be pairwise distinct.
    pub fn triangle(&mut self, v0: Point3, v1: Point3, v2: Point3)
        requires
            old(self).wf(),
            v0 != v1,
            v0 != v2,
            v1 != v2,
            old(self).spec_vertices().len() + 3 < 0xFFFF_FFFF,
        ensures
            final(self).wf(),
            ({
                let (s0, i0) = spec_add_vertex(old(self).spec_vertices(), v0);
                let (s1, i1) = spec_add_vertex(s0, v1);
                let (s2, i2) = spec_add_vertex(s1, v2);
                &&& final(self).spec_vertices() == s2
                &&& final(self).spec_triangles() == old(self).spec_triangles().push(
                    TriangleIndices { a: i0 as u32, b: i1 as u32, c: i2 as u32 },
                )
                &&& final(self).spec_colors() == old(self).spec_colors().push(spec_color_unset())
            }),
    {
        let color = Color::unset();
        self.push_triangle(v0, v1, v2, color);
    }

    /// All vertices, in slot order.
    pub fn vertices(&self) -> (r: &Vec<Point3>)
        ensures
            r@ == self.spec_vertices(),
    {
        &self.vertices
    }

    /// All triangles, in insertion order.
    pub fn triangles(&self) -> (r: &Vec<TriangleIndices>)
        ensures
            r@ == self.spec_triangles(),
    {
        &self.triangles
    }

    /// All per-triangle colors, in insertion order.
    pub fn colors(&self) -> (r: &Vec<Color>)
        ensures
            r@ == self.spec_colors(),
    {
        &self.colors
    }

    /// All vertex indices, three per triangle, in insertion order.
    pub fn indices(&self) -> (r: Vec<u32>)
        ensures
            r@.len() == 3 * self.spec_triangles().len(),
            forall|i: int|
                0 <= i < self.spec_triangles().len() ==> {
                    let t = #[trigger] self.spec_triangles()[i];
                    r@[3 * i] == t.a && r@[3 * i + 1] == t.b && r@[3 * i + 2] == t.c
                },
    {
        let mut out: Vec<u32> = Vec::new();
        let mut i: usize = 0;
        while i < self.triangles.len()
            invariant
                0 <= i <= self.triangles@.len(),
                out@.len() == 3 * i,
                forall|q: int|
                    0 <= q < i ==> {
                        let t = #[trigger] self.triangles@[q];
                        out@[3 * q] == t.a && out@[3 * q + 1] == t.b && out@[3 * q + 2] == t.c
                    },
            decreases self.triangles@.len() - i,
        {
            let t = self.triangles[i];
            out.push(t.a);
            out.push(t.b);
            out.push(t.c);
            i = i + 1;
        }
        out
    }
}

} // verus!
