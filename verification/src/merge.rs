//! Merging partial objects.
//!
//! Two references to graph nodes can merge only when they denote the same
//! node; merging distinct nodes is a defect in the caller's logic, so the
//! contract rules it out instead of producing partial geometry.

use vstd::prelude::*;

use crate::storage::Handle;

verus! {

/// Trait for merging partial objects.
///
/// Implemented for handles to graph nodes and for optional handles.
pub trait MergeWith: Sized {
    /// Whether the two values are reconcilable.
    spec fn can_merge(self, other: Self) -> bool;

    /// The merged value.
    spec fn merged(self, other: Self) -> Self;

    /// Merge this object with another.
    ///
    /// Merging two objects that cannot be merged is a defect in the caller's
    /// logic, so it is excluded by contract rather than producing partial or
    /// inconsistent geometry.
    fn merge_with(self, other: Self) -> (r: Self)
        requires
            self.can_merge(other),
        ensures
            r == self.merged(other),
    ;
}

/// Wrapper struct that indicates that the contents can be merged.
///
/// Used in connection with [`MergeWith`] to select one implementation over
/// another.
pub struct Mergeable<T>(pub T);

impl<T> MergeWith for Handle<T> {
    /// Handles merge only when they denote the same node.
    open spec fn can_merge(self, other: Self) -> bool {
        self.spec_id() == other.spec_id()
    }

    /// The shared node.
    open spec fn merged(self, other: Self) -> Self {
        self
    }

    fn merge_with(self, other: Self) -> (r: Self) {
        self
    }
}

impl<T> MergeWith for Option<Handle<T>> {
    /// Two present handles merge only when they denote the same node; an
    /// absent side always merges.
    open spec fn can_merge(self, other: Self) -> bool {
        match (self, other) {
            (Some(a), Some(b)) => a.spec_id() == b.spec_id(),
            _ => true,
        }
    }

    /// The present side, or the first when both are present and agree.
    open spec fn merged(self, other: Self) -> Self {
        if self is Some {
            self
        } else {
            other
        }
    }

    fn merge_with(self, other: Self) -> (r: Self) {
        match self {
            Some(a) => Some(a),
            None => other,
        }
    }
}

impl<T> MergeWith for Mergeable<Option<Handle<T>>> {
    /// The wrapped optional handles must be reconcilable.
    open spec fn can_merge(self, other: Self) -> bool {
        self.0.can_merge(other.0)
    }

    /// The merge of the wrapped optional handles.
    open spec fn merged(self, other: Self) -> Self {
        Mergeable(self.0.merged(other.0))
    }

    fn merge_with(self, other: Self) -> (r: Self) {
        Mergeable(self.0.merge_with(other.0))
    }
}

} // verus!
