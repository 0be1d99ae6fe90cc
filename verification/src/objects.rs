//! The boundary object graph: vertices, curves, edges, cycles, regions,
//! faces, shells, solids and sketches, each kept in its own append-only store
//! and referenced through identity handles.
//!
//! Nodes reference children through handles, never by embedding, so a child
//! reachable from many parents is one shared node. The reference structure
//! runs strictly down the kind hierarchy, so the graph is acyclic by
//! construction.

use vstd::prelude::*;

use crate::approx::BoundaryOnCurve;
use crate::geometry::SurfacePath;
use crate::math::{Point3, Vector3};
use crate::mesh::Color;
use crate::storage::{Handle, Store};

verus! {

/// A point in space, with its global position.
#[derive(Clone, Copy)]
pub struct Vertex {
    /// Where the vertex lies.
    pub point: Point3,
}

/// The identity of a curve; shared by every half-edge that runs along it.
#[derive(Clone, Copy)]
pub struct Curve {}

/// The identity of an edge, shared by the two half-edges that bound it from
/// either side. Content-free: transforming it only allocates a new identity.
#[derive(Clone, Copy)]
pub struct GlobalEdge {}

/// A directed traversal of an edge within one cycle.
#[derive(Clone, Copy)]
pub struct HalfEdge {
    /// The curve's geometry, in the coordinates of the face's surface. A
    /// transform of the ambient space leaves this untouched.
    pub path: SurfacePath,
    /// The range of the path this half-edge covers, in traversal order.
    pub boundary: BoundaryOnCurve,
    /// The curve identity this half-edge runs along.
    pub curve: Handle<Curve>,
    /// The vertex the traversal starts at.
    pub start_vertex: Handle<Vertex>,
    /// The edge identity this half-edge bounds.
    pub global_form: Handle<GlobalEdge>,
}

/// An ordered, closed loop of half-edges bounding a face or a hole.
pub struct Cycle {
    /// The half-edges, in traversal order.
    pub half_edges: Vec<Handle<HalfEdge>>,
}

/// The bounded area of a face: one exterior cycle, any number of interior
/// (hole) cycles, and an optional color.
pub struct Region {
    /// The loop that bounds the region on the outside.
    pub exterior: Handle<Cycle>,
    /// The loops that bound holes inside it.
    pub interiors: Vec<Handle<Cycle>>,
    /// The region's color, if one was assigned.
    pub color: Option<Color>,
}

/// A plane surface: `origin + u * s + v * t` in global space.
#[derive(Clone, Copy)]
pub struct Surface {
    /// The global position of the surface's local origin.
    pub origin: Point3,
    /// The global direction of the first local axis.
    pub u: Vector3,
    /// The global direction of the second local axis.
    pub v: Vector3,
}

/// A face: a region embedded in a surface.
#[derive(Clone, Copy)]
pub struct Face {
    /// The surface the face lies in.
    pub surface: Handle<Surface>,
    /// The area of the surface the face covers.
    pub region: Handle<Region>,
}

/// A connected set of faces bounding a volume.
pub struct Shell {
    /// The faces of the shell.
    pub faces: Vec<Handle<Face>>,
}

/// A solid: a set of shells.
pub struct Solid {
    /// The shells bounding the solid.
    pub shells: Vec<Handle<Shell>>,
}

/// A sketch: regions drawn on one surface, ready to be swept.
pub struct Sketch {
    /// The regions of the sketch.
    pub regions: Vec<Handle<Region>>,
}

/// All stores of the graph, one per node kind.
pub struct Objects {
    /// Vertex store.
    pub vertices: Store<Vertex>,
    /// Curve identity store.
    pub curves: Store<Curve>,
    /// Edge identity store.
    pub global_edges: Store<GlobalEdge>,
    /// Half-edge store.
    pub half_edges: Store<HalfEdge>,
    /// Cycle store.
    pub cycles: Store<Cycle>,
    /// Region store.
    pub regions: Store<Region>,
    /// Surface store.
    pub surfaces: Store<Surface>,
    /// Face store.
    pub faces: Store<Face>,
    /// Shell store.
    pub shells: Store<Shell>,
    /// Solid store.
    pub solids: Store<Solid>,
    /// Sketch store.
    pub sketches: Store<Sketch>,
}

/// One graph node of any kind, ready for insertion.
pub enum Object {
    /// A vertex.
    Vertex(Vertex),
    /// A curve identity.
    Curve(Curve),
    /// An edge identity.
    GlobalEdge(GlobalEdge),
    /// A half-edge.
    HalfEdge(HalfEdge),
    /// A cycle.
    Cycle(Cycle),
    /// A region.
    Region(Region),
    /// A surface.
    Surface(Surface),
    /// A face.
    Face(Face),
    /// A shell.
    Shell(Shell),
    /// A solid.
    Solid(Solid),
    /// A sketch.
    Sketch(Sketch),
}

/// The kind of a graph node, for identifying validated objects.
#[derive(Clone, Copy, Debug, PartialEq, Eq, Structural)]
pub enum ObjectKind {
    /// A vertex.
    Vertex,
    /// A curve identity.
    Curve,
    /// An edge identity.
    GlobalEdge,
    /// A half-edge.
    HalfEdge,
    /// A cycle.
    Cycle,
    /// A region.
    Region,
    /// A surface.
    Surface,
    /// A face.
    Face,
    /// A shell.
    Shell,
    /// A solid.
    Solid,
    /// A sketch.
    Sketch,
}

/// The kind and identity of one stored node.
#[derive(Clone, Copy, Debug, PartialEq, Eq, Structural)]
pub struct ObjectId {
    /// Which store the node lives in.
    pub kind: ObjectKind,
    /// Its identity within that store.
    pub id: u64,
}

impl Objects {
    /// Empty stores all around.
    pub fn new() -> (r: Objects)
        ensures
            r.vertices.view().len() == 0,
            r.curves.view().len() == 0,
            r.global_edges.view().len() == 0,
            r.half_edges.view().len() == 0,
            r.cycles.view().len() == 0,
            r.regions.view().len() == 0,
            r.surfaces.view().len() == 0,
            r.faces.view().len() == 0,
            r.shells.view().len() == 0,
            r.solids.view().len() == 0,
            r.sketches.view().len() == 0,
    {
        Objects {
            vertices: Store::new(),
            curves: Store::new(),
            global_edges: Store::new(),
            half_edges: Store::new(),
            cycles: Store::new(),
            regions: Store::new(),
            surfaces: Store::new(),
            faces: Store::new(),
            shells: Store::new(),
            solids: Store::new(),
            sketches: Store::new(),
        }
    }

    /// The plane spanned by the global x and y axes.
    pub fn xy_plane(&mut self) -> (r: Handle<Surface>)
        requires
            old(self).surfaces.view().len() < 0xFFFF_FFFF_FFFF_FFFFu64,
        ensures
            r.spec_id() == old(self).surfaces.view().len(),
            final(self).surfaces.view() == old(self).surfaces.view().push(spec_xy_plane()),
            final(self).vertices == old(self).vertices,
            final(self).curves == old(self).curves,
            final(self).global_edges == old(self).global_edges,
            final(self).half_edges == old(self).half_edges,
            final(self).cycles == old(self).cycles,
            final(self).regions == old(self).regions,
            final(self).faces == old(self).faces,
            final(self).shells == old(self).shells,
            final(self).solids == old(self).solids,
            final(self).sketches == old(self).sketches,
    {
        self.surfaces.insert(xy_plane_surface())
    }
}

/// The plane surface spanned by the global x and y axes.
pub open spec fn spec_xy_plane() -> Surface {
    Surface {
        origin: Point3 {
            x: crate::math::Scalar { micros: 0 },
            y: crate::math::Scalar { micros: 0 },
            z: crate::math::Scalar { micros: 0 },
        },
        u: Vector3 {
            x: crate::math::Scalar { micros: crate::math::SCALE },
            y: crate::math::Scalar { micros: 0 },
            z: crate::math::Scalar { micros: 0 },
        },
        v: Vector3 {
            x: crate::math::Scalar { micros: 0 },
            y: crate::math::Scalar { micros: crate::math::SCALE },
            z: crate::math::Scalar { micros: 0 },
        },
    }
}

/// The plane surface spanned by the global x and y axes.
pub fn xy_plane_surface() -> (r: Surface)
    ensures
        r == spec_xy_plane(),
{
    Surface {
        origin: Point3 {
            x: crate::math::Scalar { micros: 0 },
            y: crate::math::Scalar { micros: 0 },
            z: crate::math::Scalar { micros: 0 },
        },
        u: Vector3 {
            x: crate::math::Scalar { micros: crate::math::SCALE },
            y: crate::math::Scalar { micros: 0 },
            z: crate::math::Scalar { micros: 0 },
        },
        v: Vector3 {
            x: crate::math::Scalar { micros: 0 },
            y: crate::math::Scalar { micros: crate::math::SCALE },
            z: crate::math::Scalar { micros: 0 },
        },
    }
}

} // verus!
