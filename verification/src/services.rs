//! The kernel services: object insertion and validation.
//!
//! Newly constructed nodes are handed to `insert_object`; the store assigns
//! the identity, and the validation service checks the node and records an
//! error where a child handle does not denote a stored node. Errors are
//! collected, not thrown: they are surfaced when the modeling session ends,
//! through `drop_and_validate`.

use vstd::prelude::*;

use crate::objects::{Object, ObjectId, ObjectKind, Objects};
use crate::storage::Handle;

verus! {

/// A recorded validation failure: the named node references a child that the
/// stores do not hold.
#[derive(Clone, Copy, Debug, PartialEq, Eq, Structural)]
pub struct ValidationError {
    /// The node that failed validation.
    pub object: ObjectId,
}

/// The validation errors left at the end of a modeling session.
pub struct ValidationErrors(pub Vec<ValidationError>);

/// The validation service's state: the errors recorded so far.
pub struct Validation {
    errors: Vec<ValidationError>,
}

impl Validation {
    /// The recorded errors, for contracts.
    pub closed spec fn view(&self) -> Seq<ValidationError> {
        self.errors@
    }
}

/// Whether every child handle of `object` denotes a node `objects` holds.
pub open spec fn spec_refs_ok(objects: &Objects, object: &Object) -> bool {
    match object {
        Object::Vertex(_) => true,
        Object::Curve(_) => true,
        Object::GlobalEdge(_) => true,
        Object::Surface(_) => true,
        Object::HalfEdge(h) => {
            &&& h.curve.spec_id() < objects.curves.view().len()
            &&& h.start_vertex.spec_id() < objects.vertices.view().len()
            &&& h.global_form.spec_id() < objects.global_edges.view().len()
        },
        Object::Cycle(c) => forall|i: int|
            0 <= i < c.half_edges@.len() ==> (#[trigger] c.half_edges@[i]).spec_id()
                < objects.half_edges.view().len(),
        Object::Region(r) => {
            &&& r.exterior.spec_id() < objects.cycles.view().len()
            &&& forall|i: int|
                0 <= i < r.interiors@.len() ==> (#[trigger] r.interiors@[i]).spec_id()
                    < objects.cycles.view().len()
        },
        Object::Face(f) => {
            &&& f.surface.spec_id() < objects.surfaces.view().len()
            &&& f.region.spec_id() < objects.regions.view().len()
        },
        Object::Shell(s) => forall|i: int|
            0 <= i < s.faces@.len() ==> (#[trigger] s.faces@[i]).spec_id()
                < objects.faces.view().len(),
        Object::Solid(s) => forall|i: int|
            0 <= i < s.shells@.len() ==> (#[trigger] s.shells@[i]).spec_id()
                < objects.shells.view().len(),
        Object::Sketch(s) => forall|i: int|
            0 <= i < s.regions@.len() ==> (#[trigger] s.regions@[i]).spec_id()
                < objects.regions.view().len(),
    }
}

/// Check every child handle of `object` against the stores.
fn refs_ok(objects: &Objects, object: &Object) -> (r: bool)
    ensures
        r == spec_refs_ok(objects, object),
{
    match object {
        Object::Vertex(_) => true,
        Object::Curve(_) => true,
        Object::GlobalEdge(_) => true,
        Object::Surface(_) => true,
        Object::HalfEdge(h) => objects.curves.contains(&h.curve) && objects.vertices.contains(
            &h.start_vertex,
        ) && objects.global_edges.contains(&h.global_form),
        Object::Cycle(c) => {
            let mut i: usize = 0;
            let mut ok = true;
            while i < c.half_edges.len()
                invariant
                    0 <= i <= c.half_edges@.len(),
                    ok == forall|j: int|
                        0 <= j < i ==> (#[trigger] c.half_edges@[j]).spec_id()
                            < objects.half_edges.view().len(),
                decreases c.half_edges@.len() - i,
            {
                if !objects.half_edges.contains(&c.half_edges[i]) {
                    ok = false;
                }
                i = i + 1;
            }
            ok
        },
        Object::Region(r) => {
            let mut ok = objects.cycles.contains(&r.exterior);
            let mut i: usize = 0;
            while i < r.interiors.len()
                invariant
                    0 <= i <= r.interiors@.len(),
                    ok == (r.exterior.spec_id() < objects.cycles.view().len() && forall|j: int|
                        0 <= j < i ==> (#[trigger] r.interiors@[j]).spec_id()
                            < objects.cycles.view().len()),
                decreases r.interiors@.len() - i,
            {
                if !objects.cycles.contains(&r.interiors[i]) {
                    ok = false;
                }
                i = i + 1;
            }
            ok
        },
        Object::Face(f) => objects.surfaces.contains(&f.surface) && objects.regions.contains(
            &f.region,
        ),
        Object::Shell(s) => {
            let mut i: usize = 0;
            let mut ok = true;
            while i < s.faces.len()
                invariant
                    0 <= i <= s.faces@.len(),
                    ok == forall|j: int|
                        0 <= j < i ==> (#[trigger] s.faces@[j]).spec_id()
                            < objects.faces.view().len(),
                decreases s.faces@.len() - i,
            {
                if !objects.faces.contains(&s.faces[i]) {
                    ok = false;
                }
                i = i + 1;
            }
            ok
        },
        Object::Solid(s) => {
            let mut i: usize = 0;
            let mut ok = true;
            while i < s.shells.len()
                invariant
                    0 <= i <= s.shells@.len(),
                    ok == forall|j: int|
                        0 <= j < i ==> (#[trigger] s.shells@[j]).spec_id()
                            < objects.shells.view().len(),
                decreases s.shells@.len() - i,
            {
                if !objects.shells.contains(&s.shells[i]) {
                    ok = false;
                }
                i = i + 1;
            }
            ok
        },
        Object::Sketch(s) => {
            let mut i: usize = 0;
            let mut ok = true;
            while i < s.regions.len()
                invariant
                    0 <= i <= s.regions@.len(),
                    ok == forall|j: int|
                        0 <= j < i ==> (#[trigger] s.regions@[j]).spec_id()
                            < objects.regions.view().len(),
                decreases s.regions@.len() - i,
            {
                if !objects.regions.contains(&s.regions[i]) {
                    ok = false;
                }
                i = i + 1;
            }
            ok
        },
    }
}

/// The kind tag of an object.
pub open spec fn spec_kind_of(object: &Object) -> ObjectKind {
    match object {
        Object::Vertex(_) => ObjectKind::Vertex,
        Object::Curve(_) => ObjectKind::Curve,
        Object::GlobalEdge(_) => ObjectKind::GlobalEdge,
        Object::HalfEdge(_) => ObjectKind::HalfEdge,
        Object::Cycle(_) => ObjectKind::Cycle,
        Object::Region(_) => ObjectKind::Region,
        Object::Surface(_) => ObjectKind::Surface,
        Object::Face(_) => ObjectKind::Face,
        Object::Shell(_) => ObjectKind::Shell,
        Object::Solid(_) => ObjectKind::Solid,
        Object::Sketch(_) => ObjectKind::Sketch,
    }
}

/// Whether the stores hold a node with this identity.
pub open spec fn spec_object_exists(objects: &Objects, id: ObjectId) -> bool {
    match id.kind {
        ObjectKind::Vertex => id.id < objects.vertices.view().len(),
        ObjectKind::Curve => id.id < objects.curves.view().len(),
        ObjectKind::GlobalEdge => id.id < objects.global_edges.view().len(),
        ObjectKind::HalfEdge => id.id < objects.half_edges.view().len(),
        ObjectKind::Cycle => id.id < objects.cycles.view().len(),
        ObjectKind::Region => id.id < objects.regions.view().len(),
        ObjectKind::Surface => id.id < objects.surfaces.view().len(),
        ObjectKind::Face => id.id < objects.faces.view().len(),
        ObjectKind::Shell => id.id < objects.shells.view().len(),
        ObjectKind::Solid => id.id < objects.solids.view().len(),
        ObjectKind::Sketch => id.id < objects.sketches.view().len(),
    }
}

/// Whether the stored node this identity names passes validation now: it
/// exists, and every child handle it holds denotes a stored node.
pub open spec fn spec_stored_refs_ok(objects: &Objects, id: ObjectId) -> bool {
    &&& spec_object_exists(objects, id)
    &&& match id.kind {
        ObjectKind::Vertex => true,
        ObjectKind::Curve => true,
        ObjectKind::GlobalEdge => true,
        ObjectKind::Surface => true,
        ObjectKind::HalfEdge => spec_refs_ok(
            objects,
            &Object::HalfEdge(objects.half_edges.view()[id.id as int]),
        ),
        ObjectKind::Cycle => forall|i: int|
            0 <= i < objects.cycles.view()[id.id as int].half_edges@.len() ==> (
            #[trigger] objects.cycles.view()[id.id as int].half_edges@[i]).spec_id()
                < objects.half_edges.view().len(),
        ObjectKind::Region => {
            let r = objects.regions.view()[id.id as int];
            &&& r.exterior.spec_id() < objects.cycles.view().len()
            &&& forall|i: int|
                0 <= i < r.interiors@.len() ==> (#[trigger] r.interiors@[i]).spec_id()
                    < objects.cycles.view().len()
        },
        ObjectKind::Face => {
            let f = objects.faces.view()[id.id as int];
            &&& f.surface.spec_id() < objects.surfaces.view().len()
            &&& f.region.spec_id() < objects.regions.view().len()
        },
        ObjectKind::Shell => forall|i: int|
            0 <= i < objects.shells.view()[id.id as int].faces@.len() ==> (
            #[trigger] objects.shells.view()[id.id as int].faces@[i]).spec_id()
                < objects.faces.view().len(),
        ObjectKind::Solid => forall|i: int|
            0 <= i < objects.solids.view()[id.id as int].shells@.len() ==> (
            #[trigger] objects.solids.view()[id.id as int].shells@[i]).spec_id()
                < objects.shells.view().len(),
        ObjectKind::Sketch => forall|i: int|
            0 <= i < objects.sketches.view()[id.id as int].regions@.len() ==> (
            #[trigger] objects.sketches.view()[id.id as int].regions@[i]).spec_id()
                < objects.regions.view().len(),
    }
}

/// The validation errors a fresh run over the given identities records: one
/// error per named node that is missing or holds a dangling child handle, in
/// the order given.
pub open spec fn spec_validate_set(objects: &Objects, set: Seq<ObjectId>) -> Seq<ValidationError>
    decreases set.len(),
{
    if set.len() == 0 {
        Seq::empty()
    } else {
        let rest = spec_validate_set(objects, set.drop_last());
        if spec_stored_refs_ok(objects, set.last()) {
            rest
        } else {
            rest.push(ValidationError { object: set.last() })
        }
    }
}

/// Check the stored node an identity names against the stores.
#[verifier::loop_isolation(false)]
fn stored_refs_ok(objects: &Objects, id: ObjectId) -> (r: bool)
    ensures
        r == spec_stored_refs_ok(objects, id),
{
    match id.kind {
        ObjectKind::Vertex => id.id < objects.vertices.len() as u64,
        ObjectKind::Curve => id.id < objects.curves.len() as u64,
        ObjectKind::GlobalEdge => id.id < objects.global_edges.len() as u64,
        ObjectKind::Surface => id.id < objects.surfaces.len() as u64,
        ObjectKind::HalfEdge => {
            let handle: Handle<crate::objects::HalfEdge> = Handle::from_id(id.id);
            if !objects.half_edges.contains(&handle) {
                return false;
            }
            let he = objects.half_edges.get(&handle);
            objects.curves.contains(&he.curve) && objects.vertices.contains(&he.start_vertex)
                && objects.global_edges.contains(&he.global_form)
        },
        ObjectKind::Cycle => {
            let handle: Handle<crate::objects::Cycle> = Handle::from_id(id.id);
            if !objects.cycles.contains(&handle) {
                return false;
            }
            let c = objects.cycles.get(&handle);
            let mut i: usize = 0;
            let mut ok = true;
            while i < c.half_edges.len()
                invariant
                    0 <= i <= c.half_edges@.len(),
                    ok == forall|j: int|
                        0 <= j < i ==> (#[trigger] c.half_edges@[j]).spec_id()
                            < objects.half_edges.view().len(),
                decreases c.half_edges@.len() - i,
            {
                if !objects.half_edges.contains(&c.half_edges[i]) {
                    ok = false;
                }
                i = i + 1;
            }
            ok
        },
        ObjectKind::Region => {
            let handle: Handle<crate::objects::Region> = Handle::from_id(id.id);
            if !objects.regions.contains(&handle) {
                return false;
            }
            let rg = objects.regions.get(&handle);
            let mut ok = objects.cycles.contains(&rg.exterior);
            let mut i: usize = 0;
            while i < rg.interiors.len()
                invariant
                    0 <= i <= rg.interiors@.len(),
                    ok == (rg.exterior.spec_id() < objects.cycles.view().len() && forall|j: int|
                        0 <= j < i ==> (#[trigger] rg.interiors@[j]).spec_id()
                            < objects.cycles.view().len()),
                decreases rg.interiors@.len() - i,
            {
                if !objects.cycles.contains(&rg.interiors[i]) {
                    ok = false;
                }
                i = i + 1;
            }
            ok
        },
        ObjectKind::Face => {
            let handle: Handle<crate::objects::Face> = Handle::from_id(id.id);
            if !objects.faces.contains(&handle) {
                return false;
            }
            let f = objects.faces.get(&handle);
            objects.surfaces.contains(&f.surface) && objects.regions.contains(&f.region)
        },
        ObjectKind::Shell => {
            let handle: Handle<crate::objects::Shell> = Handle::from_id(id.id);
            if !objects.shells.contains(&handle) {
                return false;
            }
            let sh = objects.shells.get(&handle);
            let mut i: usize = 0;
            let mut ok = true;
            while i < sh.faces.len()
                invariant
                    0 <= i <= sh.faces@.len(),
                    ok == forall|j: int|
                        0 <= j < i ==> (#[trigger] sh.faces@[j]).spec_id()
                            < objects.faces.view().len(),
                decreases sh.faces@.len() - i,
            {
                if !objects.faces.contains(&sh.faces[i]) {
                    ok = false;
                }
                i = i + 1;
            }
            ok
        },
        ObjectKind::Solid => {
            let handle: Handle<crate::objects::Solid> = Handle::from_id(id.id);
            if !objects.solids.contains(&handle) {
                return false;
            }
            let so = objects.solids.get(&handle);
            let mut i: usize = 0;
            let mut ok = true;
            while i < so.shells.len()
                invariant
                    0 <= i <= so.shells@.len(),
                    ok == forall|j: int|
                        0 <= j < i ==> (#[trigger] so.shells@[j]).spec_id()
                            < objects.shells.view().len(),
                decreases so.shells@.len() - i,
            {
                if !objects.shells.contains(&so.shells[i]) {
                    ok = false;
                }
                i = i + 1;
            }
            ok
        },
        ObjectKind::Sketch => {
            let handle: Handle<crate::objects::Sketch> = Handle::from_id(id.id);
            if !objects.sketches.contains(&handle) {
                return false;
            }
            let sk = objects.sketches.get(&handle);
            let mut i: usize = 0;
            let mut ok = true;
            while i < sk.regions.len()
                invariant
                    0 <= i <= sk.regions@.len(),
                    ok == forall|j: int|
                        0 <= j < i ==> (#[trigger] sk.regions@[j]).spec_id()
                            < objects.regions.view().len(),
                decreases sk.regions@.len() - i,
            {
                if !objects.regions.contains(&sk.regions[i]) {
                    ok = false;
                }
                i = i + 1;
            }
            ok
        },
    }
}

/// The kernel services: the object stores plus the validation service.
pub struct Services {
    /// The object stores. Inserting through `insert_object` keeps the
    /// validation service informed.
    pub objects: Objects,
    /// The validation service's recorded errors.
    pub validation: Validation,
}

impl Services {
    /// Construct an instance of `Services` with empty stores and no errors.
    pub fn new() -> (r: Services)
        ensures
            r.objects.vertices.view().len() == 0,
            r.objects.curves.view().len() == 0,
            r.objects.global_edges.view().len() == 0,
            r.objects.half_edges.view().len() == 0,
            r.objects.cycles.view().len() == 0,
            r.objects.regions.view().len() == 0,
            r.objects.surfaces.view().len() == 0,
            r.objects.faces.view().len() == 0,
            r.objects.shells.view().len() == 0,
            r.objects.solids.view().len() == 0,
            r.objects.sketches.view().len() == 0,
            r.validation.view().len() == 0,
    {
        Services { objects: Objects::new(), validation: Validation { errors: Vec::new() } }
    }

    /// Insert an object into its store and hand it to validation.
    ///
    /// The object is stored unconditionally; if one of its child handles does
    /// not denote a stored node, a validation error is recorded against its
    /// new identity. Validation never interrupts the pipeline.
    pub fn insert_object(&mut self, object: Object) -> (id: ObjectId)
        requires
            old(self).objects.vertices.view().len() < 0xFFFF_FFFF_FFFF_FFFFu64,
            old(self).objects.curves.view().len() < 0xFFFF_FFFF_FFFF_FFFFu64,
            old(self).objects.global_edges.view().len() < 0xFFFF_FFFF_FFFF_FFFFu64,
            old(self).objects.half_edges.view().len() < 0xFFFF_FFFF_FFFF_FFFFu64,
            old(self).objects.cycles.view().len() < 0xFFFF_FFFF_FFFF_FFFFu64,
            old(self).objects.regions.view().len() < 0xFFFF_FFFF_FFFF_FFFFu64,
            old(self).objects.surfaces.view().len() < 0xFFFF_FFFF_FFFF_FFFFu64,
            old(self).objects.faces.view().len() < 0xFFFF_FFFF_FFFF_FFFFu64,
            old(self).objects.shells.view().len() < 0xFFFF_FFFF_FFFF_FFFFu64,
            old(self).objects.solids.view().len() < 0xFFFF_FFFF_FFFF_FFFFu64,
            old(self).objects.sketches.view().len() < 0xFFFF_FFFF_FFFF_FFFFu64,
        ensures
            id.kind == spec_kind_of(&object),
            final(self).validation.view() == if spec_refs_ok(&old(self).objects, &object) {
                old(self).validation.view()
            } else {
                old(self).validation.view().push(ValidationError { object: id })
            },
            object matches Object::Vertex(v) ==> final(self).objects.vertices.view() == old(
                self,
            ).objects.vertices.view().push(v) && id.id == old(self).objects.vertices.view().len(),
            object matches Object::Curve(v) ==> final(self).objects.curves.view() == old(
                self,
            ).objects.curves.view().push(v) && id.id == old(self).objects.curves.view().len(),
            object matches Object::GlobalEdge(v) ==> final(self).objects.global_edges.view() == old(
                self,
            ).objects.global_edges.view().push(v) && id.id == old(
                self,
            ).objects.global_edges.view().len(),
            object matches Object::HalfEdge(v) ==> final(self).objects.half_edges.view() == old(
                self,
            ).objects.half_edges.view().push(v) && id.id == old(
                self,
            ).objects.half_edges.view().len(),
            object matches Object::Cycle(v) ==> final(self).objects.cycles.view() == old(
                self,
            ).objects.cycles.view().push(v) && id.id == old(self).objects.cycles.view().len(),
            object matches Object::Region(v) ==> final(self).objects.regions.view() == old(
                self,
            ).objects.regions.view().push(v) && id.id == old(self).objects.regions.view().len(),
            object matches Object::Surface(v) ==> final(self).objects.surfaces.view() == old(
                self,
            ).objects.surfaces.view().push(v) && id.id == old(self).objects.surfaces.view().len(),
            object matches Object::Face(v) ==> final(self).objects.faces.view() == old(
                self,
            ).objects.faces.view().push(v) && id.id == old(self).objects.faces.view().len(),
            object matches Object::Shell(v) ==> final(self).objects.shells.view() == old(
                self,
            ).objects.shells.view().push(v) && id.id == old(self).objects.shells.view().len(),
            object matches Object::Solid(v) ==> final(self).objects.solids.view() == old(
                self,
            ).objects.solids.view().push(v) && id.id == old(self).objects.solids.view().len(),
            object matches Object::Sketch(v) ==> final(self).objects.sketches.view() == old(
                self,
            ).objects.sketches.view().push(v) && id.id == old(self).objects.sketches.view().len(),
            !(object is Vertex) ==> final(self).objects.vertices == old(self).objects.vertices,
            !(object is Curve) ==> final(self).objects.curves == old(self).objects.curves,
            !(object is GlobalEdge) ==> final(self).objects.global_edges == old(
                self,
            ).objects.global_edges,
            !(object is HalfEdge) ==> final(self).objects.half_edges == old(
                self,
            ).objects.half_edges,
            !(object is Cycle) ==> final(self).objects.cycles == old(self).objects.cycles,
            !(object is Region) ==> final(self).objects.regions == old(self).objects.regions,
            !(object is Surface) ==> final(self).objects.surfaces == old(self).objects.surfaces,
            !(object is Face) ==> final(self).objects.faces == old(self).objects.faces,
            !(object is Shell) ==> final(self).objects.shells == old(self).objects.shells,
            !(object is Solid) ==> final(self).objects.solids == old(self).objects.solids,
            !(object is Sketch) ==> final(self).objects.sketches == old(self).objects.sketches,
    {
        let ok = refs_ok(&self.objects, &object);
        let ghost kind = spec_kind_of(&object);
        let id = match object {
            Object::Vertex(v) => ObjectId {
                kind: ObjectKind::Vertex,
                id: self.objects.vertices.insert(v).id(),
            },
            Object::Curve(v) => ObjectId {
                kind: ObjectKind::Curve,
                id: self.objects.curves.insert(v).id(),
            },
            Object::GlobalEdge(v) => ObjectId {
                kind: ObjectKind::GlobalEdge,
                id: self.objects.global_edges.insert(v).id(),
            },
            Object::HalfEdge(v) => ObjectId {
                kind: ObjectKind::HalfEdge,
                id: self.objects.half_edges.insert(v).id(),
            },
            Object::Cycle(v) => ObjectId {
                kind: ObjectKind::Cycle,
                id: self.objects.cycles.insert(v).id(),
            },
            Object::Region(v) => ObjectId {
                kind: ObjectKind::Region,
                id: self.objects.regions.insert(v).id(),
            },
            Object::Surface(v) => ObjectId {
                kind: ObjectKind::Surface,
                id: self.objects.surfaces.insert(v).id(),
            },
            Object::Face(v) => ObjectId {
                kind: ObjectKind::Face,
                id: self.objects.faces.insert(v).id(),
            },
            Object::Shell(v) => ObjectId {
                kind: ObjectKind::Shell,
                id: self.objects.shells.insert(v).id(),
            },
            Object::Solid(v) => ObjectId {
                kind: ObjectKind::Solid,
                id: self.objects.solids.insert(v).id(),
            },
            Object::Sketch(v) => ObjectId {
                kind: ObjectKind::Sketch,
                id: self.objects.sketches.insert(v).id(),
            },
        };
        if !ok {
            self.validation.errors.push(ValidationError { object: id });
        }
        id
    }

    /// Validate the provided objects and forget all other validation errors.
    ///
    /// Each named node is checked afresh against the stores as they stand
    /// now, so an error recorded earlier disappears once the missing children
    /// have been inserted, and only the named nodes can contribute errors.
    #[verifier::loop_isolation(false)]
    pub fn only_validate(&mut self, objects: &Vec<ObjectId>)
        ensures
            final(self).objects == old(self).objects,
            final(self).validation.view() == spec_validate_set(&old(self).objects, objects@),
    {
        let mut errors: Vec<ValidationError> = Vec::new();
        let mut i: usize = 0;
        while i < objects.len()
            invariant
                0 <= i <= objects@.len(),
                errors@ == spec_validate_set(&self.objects, objects@.take(i as int)),
            decreases objects@.len() - i,
        {
            let id = objects[i];
            if !stored_refs_ok(&self.objects, id) {
                errors.push(ValidationError { object: id });
            }
            proof {
                assert(objects@.take(i as int + 1).drop_last() =~= objects@.take(i as int));
                assert(objects@.take(i as int + 1).last() == id);
            }
            i = i + 1;
        }
        proof {
            assert(objects@.take(objects@.len() as int) =~= objects@);
        }
        self.validation.errors = errors;
    }

    /// Drop the services; return the unhandled validation errors, if any.
    pub fn drop_and_validate(self) -> (r: Result<(), ValidationErrors>)
        ensures
            r is Ok <==> self.validation.view().len() == 0,
            r matches Err(e) ==> e.0@ == self.validation.view(),
    {
        if self.validation.errors.len() == 0 {
            Ok(())
        } else {
            Err(ValidationErrors(self.validation.errors))
        }
    }
}

impl Default for Services {
    /// Fresh services: empty stores, no recorded errors.
    fn default() -> (r: Services)
        ensures
            r.objects.vertices.view().len() == 0,
            r.objects.curves.view().len() == 0,
            r.objects.global_edges.view().len() == 0,
            r.objects.half_edges.view().len() == 0,
            r.objects.cycles.view().len() == 0,
            r.objects.regions.view().len() == 0,
            r.objects.surfaces.view().len() == 0,
            r.objects.faces.view().len() == 0,
            r.objects.shells.view().len() == 0,
            r.objects.solids.view().len() == 0,
            r.objects.sketches.view().len() == 0,
            r.validation.view().len() == 0,
    {
        Services::new()
    }
}

} // verus!
