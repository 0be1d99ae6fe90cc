//! Transforming graph nodes, with a per-invocation cache so each shared
//! sub-object is transformed exactly once.
//!
//! The cache maps a node's identity to the identity of its already-computed
//! transform. Before a leaf node (vertex, curve identity, edge identity) is
//! transformed, the cache is consulted; on a hit the earlier result is reused
//! and nothing is allocated, so every parent that shares the node ends up
//! referencing the single transformed copy. The one-transform-per-node law is
//! proved at the end of this module.

use vstd::prelude::*;
use std::collections::HashMap;

use crate::geometry::{scaled_mul, spec_scaled_mul, Circle3, GlobalPath, Line3, GEOM_LIMIT};
use crate::math::{Point3, Scalar, Vector3};
use crate::objects::{Curve, GlobalEdge, HalfEdge, Vertex};
use crate::services::Services;
use crate::storage::Handle;

verus! {

broadcast use vstd::std_specs::hash::group_hash_axioms;

/// The unit vector along the x-axis.
pub open spec fn spec_unit_x() -> Vector3 {
    Vector3 {
        x: Scalar { micros: crate::math::SCALE as i64 },
        y: Scalar { micros: 0 },
        z: Scalar { micros: 0 },
    }
}

/// The unit vector along the y-axis.
pub open spec fn spec_unit_y() -> Vector3 {
    Vector3 {
        x: Scalar { micros: 0 },
        y: Scalar { micros: crate::math::SCALE as i64 },
        z: Scalar { micros: 0 },
    }
}

/// The unit vector along the z-axis.
pub open spec fn spec_unit_z() -> Vector3 {
    Vector3 {
        x: Scalar { micros: 0 },
        y: Scalar { micros: 0 },
        z: Scalar { micros: crate::math::SCALE as i64 },
    }
}

/// An affine transform of global space: a linear part given by the images of
/// the three axes, plus a translation. Rotations and reflections are linear
/// parts; a pure translation has the identity basis.
#[derive(Clone, Copy)]
pub struct Transform {
    /// Where the x-axis direction lands.
    pub basis_x: Vector3,
    /// Where the y-axis direction lands.
    pub basis_y: Vector3,
    /// Where the z-axis direction lands.
    pub basis_z: Vector3,
    /// How far every point moves after the linear part.
    pub translation: Vector3,
}

/// The bound within which a transform's entries and its operands must stay
/// for exact evaluation.
pub open spec fn transform_coord_ok(x: int) -> bool {
    -(GEOM_LIMIT as int) <= x <= GEOM_LIMIT as int
}

/// Every entry of the transform is within the exact-arithmetic bound.
pub open spec fn transform_small(t: Transform) -> bool {
    &&& transform_coord_ok(t.basis_x.x.micros as int) && transform_coord_ok(
        t.basis_x.y.micros as int,
    ) && transform_coord_ok(t.basis_x.z.micros as int)
    &&& transform_coord_ok(t.basis_y.x.micros as int) && transform_coord_ok(
        t.basis_y.y.micros as int,
    ) && transform_coord_ok(t.basis_y.z.micros as int)
    &&& transform_coord_ok(t.basis_z.x.micros as int) && transform_coord_ok(
        t.basis_z.y.micros as int,
    ) && transform_coord_ok(t.basis_z.z.micros as int)
    &&& transform_coord_ok(t.translation.x.micros as int) && transform_coord_ok(
        t.translation.y.micros as int,
    ) && transform_coord_ok(t.translation.z.micros as int)
}

/// Every coordinate of the point is within the exact-arithmetic bound.
pub open spec fn transform_point_ok(p: Point3) -> bool {
    transform_coord_ok(p.x.micros as int) && transform_coord_ok(p.y.micros as int)
        && transform_coord_ok(p.z.micros as int)
}

impl Transform {
    /// The transform that moves every point by `path`: identity linear part.
    pub fn translation(path: Vector3) -> (r: Transform)
        ensures
            r.translation == path,
            r.basis_x == spec_unit_x(),
            r.basis_y == spec_unit_y(),
            r.basis_z == spec_unit_z(),
    {
        Transform {
            basis_x: Vector3 {
                x: Scalar { micros: crate::math::SCALE },
                y: Scalar { micros: 0 },
                z: Scalar { micros: 0 },
            },
            basis_y: Vector3 {
                x: Scalar { micros: 0 },
                y: Scalar { micros: crate::math::SCALE },
                z: Scalar { micros: 0 },
            },
            basis_z: Vector3 {
                x: Scalar { micros: 0 },
                y: Scalar { micros: 0 },
                z: Scalar { micros: crate::math::SCALE },
            },
            translation: path,
        }
    }

    /// Where a displacement lands under the linear part alone: the exact
    /// fixed-point combination of the basis images, with no translation — a
    /// direction or radius vector is not anchored to a point.
    pub open spec fn spec_transform_vector(&self, v: Vector3) -> Vector3 {
        Vector3 {
            x: Scalar {
                micros: (spec_scaled_mul(self.basis_x.x.micros as int, v.x.micros as int)
                    + spec_scaled_mul(self.basis_y.x.micros as int, v.y.micros as int)
                    + spec_scaled_mul(self.basis_z.x.micros as int, v.z.micros as int)) as i64,
            },
            y: Scalar {
                micros: (spec_scaled_mul(self.basis_x.y.micros as int, v.x.micros as int)
                    + spec_scaled_mul(self.basis_y.y.micros as int, v.y.micros as int)
                    + spec_scaled_mul(self.basis_z.y.micros as int, v.z.micros as int)) as i64,
            },
            z: Scalar {
                micros: (spec_scaled_mul(self.basis_x.z.micros as int, v.x.micros as int)
                    + spec_scaled_mul(self.basis_y.z.micros as int, v.y.micros as int)
                    + spec_scaled_mul(self.basis_z.z.micros as int, v.z.micros as int)) as i64,
            },
        }
    }

    /// Where a point lands: the linear part, then the translation.
    pub open spec fn spec_transform_point(&self, p: Point3) -> Point3 {
        let lin = self.spec_transform_vector(Vector3 { x: p.x, y: p.y, z: p.z });
        Point3 {
            x: Scalar { micros: (lin.x.micros + self.translation.x.micros) as i64 },
            y: Scalar { micros: (lin.y.micros + self.translation.y.micros) as i64 },
            z: Scalar { micros: (lin.z.micros + self.translation.z.micros) as i64 },
        }
    }

    /// Transform a displacement vector by the linear part.
    pub fn transform_vector(&self, v: Vector3) -> (r: Vector3)
        requires
            transform_small(*self),
            transform_coord_ok(v.x.micros as int),
            transform_coord_ok(v.y.micros as int),
            transform_coord_ok(v.z.micros as int),
        ensures
            r == self.spec_transform_vector(v),
            -0x6000_0000_0000_0000i64 <= r.x.micros <= 0x6000_0000_0000_0000i64,
            -0x6000_0000_0000_0000i64 <= r.y.micros <= 0x6000_0000_0000_0000i64,
            -0x6000_0000_0000_0000i64 <= r.z.micros <= 0x6000_0000_0000_0000i64,
    {
        let x = scaled_mul(self.basis_x.x.micros, v.x.micros) + scaled_mul(
            self.basis_y.x.micros,
            v.y.micros,
        ) + scaled_mul(self.basis_z.x.micros, v.z.micros);
        let y = scaled_mul(self.basis_x.y.micros, v.x.micros) + scaled_mul(
            self.basis_y.y.micros,
            v.y.micros,
        ) + scaled_mul(self.basis_z.y.micros, v.z.micros);
        let z = scaled_mul(self.basis_x.z.micros, v.x.micros) + scaled_mul(
            self.basis_y.z.micros,
            v.y.micros,
        ) + scaled_mul(self.basis_z.z.micros, v.z.micros);
        Vector3 { x: Scalar { micros: x }, y: Scalar { micros: y }, z: Scalar { micros: z } }
    }

    /// Transform a point.
    pub fn transform_point(&self, p: Point3) -> (r: Point3)
        requires
            transform_small(*self),
            transform_point_ok(p),
        ensures
            r == self.spec_transform_point(p),
    {
        let lin = self.transform_vector(Vector3 { x: p.x, y: p.y, z: p.z });
        Point3 {
            x: Scalar { micros: lin.x.micros + self.translation.x.micros },
            y: Scalar { micros: lin.y.micros + self.translation.y.micros },
            z: Scalar { micros: lin.z.micros + self.translation.z.micros },
        }
    }
}

impl GlobalPath {
    /// Transform the path: points move under the whole affine map, while the
    /// direction and radius vectors, being displacements, move under the
    /// linear part alone.
    pub fn transform(self, transform: &Transform) -> (r: GlobalPath)
        requires
            self.wf(),
            transform_small(*transform),
        ensures
            self matches GlobalPath::Line(l) ==> r == GlobalPath::Line(
                Line3 {
                    origin: transform.spec_transform_point(l.origin),
                    direction: transform.spec_transform_vector(l.direction),
                },
            ),
            self matches GlobalPath::Circle(c) ==> r == GlobalPath::Circle(
                Circle3 {
                    center: transform.spec_transform_point(c.center),
                    a: transform.spec_transform_vector(c.a),
                    b: transform.spec_transform_vector(c.b),
                },
            ),
    {
        match self {
            GlobalPath::Circle(curve) => GlobalPath::Circle(
                Circle3 {
                    center: transform.transform_point(curve.center),
                    a: transform.transform_vector(curve.a),
                    b: transform.transform_vector(curve.b),
                },
            ),
            GlobalPath::Line(curve) => GlobalPath::Line(
                Line3 {
                    origin: transform.transform_point(curve.origin),
                    direction: transform.transform_vector(curve.direction),
                },
            ),
        }
    }
}

/// The per-invocation memo table of one transform operation: old identity to
/// new identity, one table per leaf node kind.
pub struct TransformCache {
    /// Already-transformed vertices.
    pub vertices: HashMap<u64, u64>,
    /// Already-transformed curve identities.
    pub curves: HashMap<u64, u64>,
    /// Already-transformed edge identities.
    pub global_edges: HashMap<u64, u64>,
}

impl TransformCache {
    /// An empty cache, for one fresh operation invocation.
    pub fn new() -> (r: TransformCache)
        ensures
            r.vertices@ == Map::<u64, u64>::empty(),
            r.curves@ == Map::<u64, u64>::empty(),
            r.global_edges@ == Map::<u64, u64>::empty(),
    {
        TransformCache {
            vertices: HashMap::new(),
            curves: HashMap::new(),
            global_edges: HashMap::new(),
        }
    }
}

/// One cached allocation step over a store: what the identity map and the
/// store length look like after asking for `id`.
pub struct CacheStep {
    /// The identity handed back.
    pub result: u64,
    /// The memo table afterwards.
    pub cache: Map<u64, u64>,
    /// The store length afterwards.
    pub store_len: int,
}

/// The cached-allocation discipline: on a hit nothing changes and the earlier
/// result is reused; on a miss the next identity is allocated and remembered.
pub open spec fn spec_cached_alloc(cache: Map<u64, u64>, store_len: int, id: u64) -> CacheStep {
    if cache.contains_key(id) {
        CacheStep { result: cache[id], cache, store_len }
    } else {
        CacheStep {
            result: store_len as u64,
            cache: cache.insert(id, store_len as u64),
            store_len: store_len + 1,
        }
    }
}

/// Law: within one cached operation, asking twice for the same node reuses
/// the first answer and allocates nothing the second time. Two parents that
/// share a child handle therefore reference the identical transformed result,
/// and the per-node computation runs at most once.
pub proof fn lemma_transformed_once(cache: Map<u64, u64>, store_len: int, id: u64)
    ensures
        ({
            let first = spec_cached_alloc(cache, store_len, id);
            let second = spec_cached_alloc(first.cache, first.store_len, id);
            &&& second.result == first.result
            &&& second.cache == first.cache
            &&& second.store_len == first.store_len
        }),
{
}

impl Transform {
    /// Transform a vertex, reusing the cached result if this vertex was
    /// already transformed in this invocation.
    pub fn transform_vertex_with_cache(
        &self,
        handle: Handle<Vertex>,
        services: &mut Services,
        cache: &mut HashMap<u64, u64>,
    ) -> (r: Handle<Vertex>)
        requires
            handle.spec_id() < old(services).objects.vertices.view().len(),
            old(services).objects.vertices.view().len() < 0xFFFF_FFFF_FFFF_FFFFu64,
            transform_point_ok(
                old(services).objects.vertices.view()[handle.spec_id() as int].point,
            ),
            transform_small(*self),
        ensures
            ({
                let step = spec_cached_alloc(
                    old(cache)@,
                    old(services).objects.vertices.view().len() as int,
                    handle.spec_id(),
                );
                &&& r.spec_id() == step.result
                &&& final(cache)@ == step.cache
                &&& final(services).objects.vertices.view().len() == step.store_len
                &&& old(cache)@.contains_key(handle.spec_id()) ==> final(services).objects
                    == old(services).objects
                &&& !old(cache)@.contains_key(handle.spec_id())
                    ==> final(services).objects.vertices.view()
                    == old(services).objects.vertices.view().push(
                    Vertex {
                        point: self.spec_transform_point(
                            old(services).objects.vertices.view()[handle.spec_id() as int].point,
                        ),
                    },
                )
            }),
            final(services).objects.curves == old(services).objects.curves,
            final(services).objects.global_edges == old(services).objects.global_edges,
            final(services).objects.half_edges == old(services).objects.half_edges,
            final(services).objects.cycles == old(services).objects.cycles,
            final(services).objects.regions == old(services).objects.regions,
            final(services).objects.surfaces == old(services).objects.surfaces,
            final(services).objects.faces == old(services).objects.faces,
            final(services).objects.shells == old(services).objects.shells,
            final(services).objects.solids == old(services).objects.solids,
            final(services).objects.sketches == old(services).objects.sketches,
            final(services).validation == old(services).validation,
    {
        let key = handle.id();
        match cache.get(&key) {
            Some(id) => Handle::from_id(*id),
            None => {
                let v = *services.objects.vertices.get(&handle);
                let moved = Vertex { point: self.transform_point(v.point) };
                let new_handle = services.objects.vertices.insert(moved);
                cache.insert(key, new_handle.id());
                new_handle
            },
        }
    }

    /// Transform a curve identity: on the first encounter a new identity is
    /// allocated; afterwards the cached one is reused.
    pub fn transform_curve_with_cache(
        &self,
        handle: Handle<Curve>,
        services: &mut Services,
        cache: &mut HashMap<u64, u64>,
    ) -> (r: Handle<Curve>)
        requires
            old(services).objects.curves.view().len() < 0xFFFF_FFFF_FFFF_FFFFu64,
        ensures
            ({
                let step = spec_cached_alloc(
                    old(cache)@,
                    old(services).objects.curves.view().len() as int,
                    handle.spec_id(),
                );
                &&& r.spec_id() == step.result
                &&& final(cache)@ == step.cache
                &&& final(services).objects.curves.view().len() == step.store_len
            }),
            final(services).objects.vertices == old(services).objects.vertices,
            final(services).objects.global_edges == old(services).objects.global_edges,
            final(services).objects.half_edges == old(services).objects.half_edges,
            final(services).objects.cycles == old(services).objects.cycles,
            final(services).objects.regions == old(services).objects.regions,
            final(services).objects.surfaces == old(services).objects.surfaces,
            final(services).objects.faces == old(services).objects.faces,
            final(services).objects.shells == old(services).objects.shells,
            final(services).objects.solids == old(services).objects.solids,
            final(services).objects.sketches == old(services).objects.sketches,
            final(services).validation == old(services).validation,
    {
        let key = handle.id();
        match cache.get(&key) {
            Some(id) => Handle::from_id(*id),
            None => {
                let new_handle = services.objects.curves.insert(Curve {  });
                cache.insert(key, new_handle.id());
                new_handle
            },
        }
    }

    /// Transform an edge identity. There is nothing to transform — an edge
    /// identity holds no data — but a new identity must represent the
    /// transformed edge, allocated once per invocation and shared by every
    /// parent.
    pub fn transform_global_edge_with_cache(
        &self,
        handle: Handle<GlobalEdge>,
        services: &mut Services,
        cache: &mut HashMap<u64, u64>,
    ) -> (r: Handle<GlobalEdge>)
        requires
            old(services).objects.global_edges.view().len() < 0xFFFF_FFFF_FFFF_FFFFu64,
        ensures
            ({
                let step = spec_cached_alloc(
                    old(cache)@,
                    old(services).objects.global_edges.view().len() as int,
                    handle.spec_id(),
                );
                &&& r.spec_id() == step.result
                &&& final(cache)@ == step.cache
                &&& final(services).objects.global_edges.view().len() == step.store_len
            }),
            final(services).objects.vertices == old(services).objects.vertices,
            final(services).objects.curves == old(services).objects.curves,
            final(services).objects.half_edges == old(services).objects.half_edges,
            final(services).objects.cycles == old(services).objects.cycles,
            final(services).objects.regions == old(services).objects.regions,
            final(services).objects.surfaces == old(services).objects.surfaces,
            final(services).objects.faces == old(services).objects.faces,
            final(services).objects.shells == old(services).objects.shells,
            final(services).objects.solids == old(services).objects.solids,
            final(services).objects.sketches == old(services).objects.sketches,
            final(services).validation == old(services).validation,
    {
        let key = handle.id();
        match cache.get(&key) {
            Some(id) => Handle::from_id(*id),
            None => {
                let new_handle = services.objects.global_edges.insert(GlobalEdge {  });
                cache.insert(key, new_handle.id());
                new_handle
            },
        }
    }

    /// Transform a half-edge: rebuild it from transformed copies of its
    /// curve, start vertex and edge identity. The surface-local path and
    /// boundary are untouched — surface-local geometry is defined relative to
    /// the surface and is not subject to the ambient transform.
    pub fn transform_half_edge_with_cache(
        &self,
        handle: Handle<HalfEdge>,
        services: &mut Services,
        cache: &mut TransformCache,
    ) -> (r: Handle<HalfEdge>)
        requires
            handle.spec_id() < old(services).objects.half_edges.view().len(),
            old(services).objects.half_edges.view().len() < 0xFFFF_FFFF_FFFF_FFFEu64,
            old(services).objects.vertices.view().len() < 0xFFFF_FFFF_FFFF_FFFEu64,
            old(services).objects.curves.view().len() < 0xFFFF_FFFF_FFFF_FFFEu64,
            old(services).objects.global_edges.view().len() < 0xFFFF_FFFF_FFFF_FFFEu64,
            old(services).objects.half_edges.view()[handle.spec_id() as int].start_vertex.spec_id()
                < old(services).objects.vertices.view().len(),
            transform_point_ok(
                old(services).objects.vertices.view()[old(
                    services,
                ).objects.half_edges.view()[handle.spec_id() as int].start_vertex.spec_id() as int].point,
            ),
            transform_small(*self),
        ensures
            ({
                let he = old(services).objects.half_edges.view()[handle.spec_id() as int];
                let new_he = final(services).objects.half_edges.view().last();
                &&& r.spec_id() == old(services).objects.half_edges.view().len()
                &&& final(services).objects.half_edges.view().len() == old(
                    services,
                ).objects.half_edges.view().len() + 1
                &&& new_he.path == he.path
                &&& new_he.boundary == he.boundary
                &&& new_he.curve.spec_id() == spec_cached_alloc(
                    old(cache).curves@,
                    old(services).objects.curves.view().len() as int,
                    he.curve.spec_id(),
                ).result
                &&& new_he.start_vertex.spec_id() == spec_cached_alloc(
                    old(cache).vertices@,
                    old(services).objects.vertices.view().len() as int,
                    he.start_vertex.spec_id(),
                ).result
                &&& new_he.global_form.spec_id() == spec_cached_alloc(
                    old(cache).global_edges@,
                    old(services).objects.global_edges.view().len() as int,
                    he.global_form.spec_id(),
                ).result
                &&& final(cache).curves@ == spec_cached_alloc(
                    old(cache).curves@,
                    old(services).objects.curves.view().len() as int,
                    he.curve.spec_id(),
                ).cache
                &&& final(cache).vertices@ == spec_cached_alloc(
                    old(cache).vertices@,
                    old(services).objects.vertices.view().len() as int,
                    he.start_vertex.spec_id(),
                ).cache
                &&& final(cache).global_edges@ == spec_cached_alloc(
                    old(cache).global_edges@,
                    old(services).objects.global_edges.view().len() as int,
                    he.global_form.spec_id(),
                ).cache
                &&& final(services).objects.curves.view().len() == spec_cached_alloc(
                    old(cache).curves@,
                    old(services).objects.curves.view().len() as int,
                    he.curve.spec_id(),
                ).store_len
                &&& final(services).objects.vertices.view().len() == spec_cached_alloc(
                    old(cache).vertices@,
                    old(services).objects.vertices.view().len() as int,
                    he.start_vertex.spec_id(),
                ).store_len
                &&& final(services).objects.global_edges.view().len() == spec_cached_alloc(
                    old(cache).global_edges@,
                    old(services).objects.global_edges.view().len() as int,
                    he.global_form.spec_id(),
                ).store_len
            }),
            forall|q: int|
                0 <= q < old(services).objects.half_edges.view().len()
                    ==> final(services).objects.half_edges.view()[q]
                    == old(services).objects.half_edges.view()[q],
            final(services).objects.cycles == old(services).objects.cycles,
            final(services).objects.regions == old(services).objects.regions,
            final(services).objects.surfaces == old(services).objects.surfaces,
            final(services).objects.faces == old(services).objects.faces,
            final(services).objects.shells == old(services).objects.shells,
            final(services).objects.solids == old(services).objects.solids,
            final(services).objects.sketches == old(services).objects.sketches,
            final(services).validation == old(services).validation,
    {
        let he = *services.objects.half_edges.get(&handle);
        let path = he.path;
        let boundary = he.boundary;
        let curve = self.transform_curve_with_cache(he.curve, services, &mut cache.curves);
        let start_vertex = self.transform_vertex_with_cache(
            he.start_vertex,
            services,
            &mut cache.vertices,
        );
        let global_form = self.transform_global_edge_with_cache(
            he.global_form,
            services,
            &mut cache.global_edges,
        );
        services.objects.half_edges.insert(
            HalfEdge { path, boundary, curve, start_vertex, global_form },
        )
    }
}

} // verus!
