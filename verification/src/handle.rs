//! The shared-ownership handle that the slot stores.

use std::sync::Arc;
use vstd::prelude::*;

verus! {

/// A shared-ownership handle to an immutable value, tagged with the identity
/// of its allocation.
///
/// A handle owns one reference-count unit of an `Arc` allocation. Cloning a
/// handle shares that allocation (the count grows by one) and keeps its
/// identity; dropping a handle releases its unit, and the allocation is freed
/// when the last unit is released. Two handles are identity-equal exactly
/// when they share an allocation: identity never compares the pointed-to
/// values.
pub struct SharedRef<T> {
    id: usize,
    data: Arc<T>,
}

impl<T> SharedRef<T> {
    /// The identity of the allocation this handle owns a share of.
    pub closed spec fn id(self) -> usize {
        self.id
    }

    /// The value stored in the allocation.
    pub closed spec fn value(self) -> T {
        *self.data
    }

    /// Allocate a fresh shared value (count = 1) with the allocation's own
    /// identity.
    pub fn new(value: T) -> (r: SharedRef<T>)
        ensures
            r.value() == value,
    {
        let data = Arc::new(value);
        let id = arc_identity(&data);
        SharedRef { id, data }
    }

    /// Whether the two handles share one allocation. Identity comparison
    /// only: the pointed-to values are never read.
    pub fn ptr_eq(&self, other: &SharedRef<T>) -> (r: bool)
        ensures
            r == (self.id() == other.id()),
    {
        self.id == other.id
    }

    /// Borrow the shared value without touching the reference count.
    pub fn get(&self) -> (r: &T)
        ensures
            *r == self.value(),
    {
        arc_borrow(&self.data)
    }
}

impl<T> Clone for SharedRef<T> {
    /// Share the allocation: the clone has the same identity and value, and
    /// the allocation's reference count grows by one.
    fn clone(&self) -> (r: Self)
        ensures
            r == *self,
    {
        SharedRef { id: self.id, data: arc_clone(&self.data) }
    }
}

/// Relies on `Arc::clone`: the returned handle shares the callee's
/// allocation (incrementing its reference count), so it holds the same
/// value.
#[verifier::external_body]
fn arc_clone<T>(a: &Arc<T>) -> (r: Arc<T>)
    ensures
        r == *a,
{
    Arc::clone(a)
}

/// Relies on `Arc` dereference: the borrow sees the allocation's value and
/// leaves the reference count untouched.
#[verifier::external_body]
fn arc_borrow<T>(a: &Arc<T>) -> (r: &T)
    ensures
        *r == **a,
{
    a.as_ref()
}

/// Relies on `Arc::as_ptr`: the address of the allocation, which no other
/// live allocation shares. Nothing is promised of the value: it stands for
/// a machine address.
#[verifier::external_body]
fn arc_identity<T>(a: &Arc<T>) -> usize {
    Arc::as_ptr(a) as usize
}

} // verus!
