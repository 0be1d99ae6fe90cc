//! Append-only stores and identity handles.
//!
//! A handle is an opaque reference to a graph node: it compares by identity,
//! never by content, so two parents holding the same handle share one node.
//! A store hands out handles densely, in insertion order, and a node is never
//! changed after insertion.

use vstd::prelude::*;
use core::marker::PhantomData;

verus! {

/// An identity reference to a node of type `T` in that type's store.
pub struct Handle<T> {
    id: u64,
    marker: PhantomData<T>,
}

impl<T> Handle<T> {
    /// Build the handle with the given identity.
    pub fn from_id(id: u64) -> (r: Handle<T>)
        ensures
            r.spec_id() == id,
    {
        Handle { id, marker: PhantomData }
    }

    /// The identity, for contracts.
    pub closed spec fn spec_id(&self) -> u64 {
        self.id
    }

    /// The node's identity. Two handles denote the same node exactly when
    /// their identities are equal.
    pub fn id(&self) -> (r: u64)
        ensures
            r == self.spec_id(),
    {
        self.id
    }

    /// Whether two handles denote the same node.
    pub fn same(&self, other: &Handle<T>) -> (r: bool)
        ensures
            r <==> self.spec_id() == other.spec_id(),
    {
        self.id == other.id
    }
}

impl<T> Clone for Handle<T> {
    fn clone(&self) -> (r: Self)
        ensures
            r.spec_id() == self.spec_id(),
    {
        Handle { id: self.id, marker: PhantomData }
    }
}

impl<T> Copy for Handle<T> {

}

/// An append-only store of nodes of one type. Slot `i` is the node that the
/// handle with identity `i` denotes.
pub struct Store<T> {
    items: Vec<T>,
}

impl<T> Store<T> {
    /// The stored nodes, in insertion order, for contracts.
    pub closed spec fn view(&self) -> Seq<T> {
        self.items@
    }

    /// An empty store.
    pub fn new() -> (r: Store<T>)
        ensures
            r.view() =~= Seq::<T>::empty(),
    {
        Store { items: Vec::new() }
    }

    /// How many nodes the store holds.
    pub fn len(&self) -> (r: usize)
        ensures
            r == self.view().len(),
    {
        self.items.len()
    }

    /// Insert a node; its handle is the next dense identity.
    pub fn insert(&mut self, item: T) -> (r: Handle<T>)
        requires
            old(self).view().len() < 0xFFFF_FFFF_FFFF_FFFFu64,
        ensures
            r.spec_id() == old(self).view().len(),
            final(self).view() == old(self).view().push(item),
    {
        let id = self.items.len() as u64;
        self.items.push(item);
        Handle { id, marker: PhantomData }
    }

    /// Whether a handle denotes a node of this store.
    pub fn contains(&self, handle: &Handle<T>) -> (r: bool)
        ensures
            r <==> handle.spec_id() < self.view().len(),
    {
        handle.id() < self.items.len() as u64
    }

    /// Look a handle up.
    pub fn get(&self, handle: &Handle<T>) -> (r: &T)
        requires
            handle.spec_id() < self.view().len(),
        ensures
            *r == self.view()[handle.spec_id() as int],
    {
        let l = self.items.len();
        proof {
            assert(handle.spec_id() < l);
        }
        &self.items[handle.id() as usize]
    }
}

} // verus!
