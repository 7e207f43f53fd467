//! The nullable shared-ownership slot and its four replace/read operations.

use crate::handle::SharedRef;
use core::sync::atomic::Ordering;
use vstd::prelude::*;

verus! {

/// The identity of an optional handle: `None` stands for the empty slot.
pub open spec fn opt_id<T>(v: Option<SharedRef<T>>) -> Option<usize> {
    match v {
        None => None,
        Some(h) => Some(h.id()),
    }
}

/// A nullable slot holding at most one [`SharedRef`].
///
/// The slot owns exactly one reference-count unit for the handle it holds:
/// every operation that replaces the content releases or hands out exactly
/// one unit and takes in exactly one. Writers take the slot exclusively
/// (`&mut`); `load` only reads and clones. Each operation takes the memory
/// ordering the access is performed with; the ordering never affects which
/// value an operation returns, which is all the contracts speak of.
pub struct AtomicArc<T> {
    inner: Option<SharedRef<T>>,
}

impl<T> View for AtomicArc<T> {
    type V = Option<SharedRef<T>>;

    closed spec fn view(&self) -> Option<SharedRef<T>> {
        self.inner
    }
}

impl<T> AtomicArc<T> {
    /// Create a slot, allocating a fresh shared value (count = 1) when
    /// `data` is present and empty otherwise.
    pub fn new(data: Option<T>) -> (slot: AtomicArc<T>)
        ensures
            data is None ==> slot@ is None,
            data matches Some(v) ==> slot@ matches Some(h) && h.value() == v,
    {
        match data {
            None => AtomicArc::from_arc(None),
            Some(v) => AtomicArc::from_arc(Some(SharedRef::new(v))),
        }
    }

    /// Create a slot that takes direct ownership of an existing handle's
    /// unit, without a fresh allocation.
    pub fn from_arc(arc: Option<SharedRef<T>>) -> (slot: AtomicArc<T>)
        ensures
            slot@ == arc,
    {
        AtomicArc { inner: arc }
    }

    /// Read the slot's content as an owned handle: the content stays in
    /// place and the returned handle is a clone of it (count + 1).
    /// Exclusive access, so no ordering is involved.
    pub fn get_arc(&mut self) -> (r: Option<SharedRef<T>>)
        ensures
            r == old(self)@,
            final(self)@ == old(self)@,
    {
        match &self.inner {
            None => None,
            Some(h) => Some(h.clone()),
        }
    }

    /// Borrow the slot's value without touching the reference count.
    /// Exclusive access, so no ordering is involved.
    pub fn get(&mut self) -> (r: Option<&T>)
        ensures
            final(self)@ == old(self)@,
            r is Some <==> old(self)@ is Some,
            r matches Some(v) ==> old(self)@ matches Some(h) && *v == h.value(),
    {
        match &self.inner {
            None => None,
            Some(h) => Some(h.get()),
        }
    }

    /// Destroy the slot and hand its content to the caller by direct unit
    /// transfer: no count change, no clone.
    pub fn into_arc(self) -> (r: Option<SharedRef<T>>)
        ensures
            r == self@,
    {
        self.inner
    }

    /// Read the slot under `order` and return a clone of its content
    /// (count + 1); the slot's own unit is left untouched.
    pub fn load(&self, order: Ordering) -> (r: Option<SharedRef<T>>)
        ensures
            r == self@,
    {
        match &self.inner {
            None => None,
            Some(h) => Some(h.clone()),
        }
    }

    /// Replace the slot's content with `new` under `order`, releasing the
    /// previous content's unit.
    pub fn store(&mut self, new: Option<SharedRef<T>>, order: Ordering)
        ensures
            final(self)@ == new,
    {
        let _ = self.swap(new, order);
    }

    /// Exchange the slot's content with `new` under `order`: `new`'s unit
    /// moves into the slot and the previous content's unit moves out to the
    /// caller. Exactly one unit enters and one leaves; nothing is allocated.
    pub fn swap(&mut self, new: Option<SharedRef<T>>, order: Ordering) -> (prev: Option<
        SharedRef<T>,
    >)
        ensures
            final(self)@ == new,
            prev == old(self)@,
    {
        let mut prev = new;
        core::mem::swap(&mut self.inner, &mut prev);
        prev
    }

    /// Replace the slot's content with `new` under `order` only if the
    /// current content is identity-equal to `expected` (both empty counts
    /// as equal); the pointed-to values are never compared.
    ///
    /// Either way the returned handle is the slot's previous content: on a
    /// match it is the stored handle itself (its unit moves out, `expected`'s
    /// unit is released); on a mismatch it is a fresh clone of the current
    /// content (count + 1), and the units of both `expected` and `new` are
    /// released, never leaked and never installed.
    pub fn compare_and_swap(
        &mut self,
        expected: Option<SharedRef<T>>,
        new: Option<SharedRef<T>>,
        order: Ordering,
    ) -> (prev: Option<SharedRef<T>>)
        ensures
            prev == old(self)@,
            final(self)@ == (if opt_id(old(self)@) == opt_id(expected) {
                new
            } else {
                old(self)@
            }),
    {
        let ids_equal: bool = match (&self.inner, &expected) {
            (None, None) => true,
            (Some(cur), Some(exp)) => cur.ptr_eq(exp),
            _ => false,
        };
        if ids_equal {
            let mut prev = new;
            core::mem::swap(&mut self.inner, &mut prev);
            prev
        } else {
            match &self.inner {
                None => None,
                Some(h) => Some(h.clone()),
            }
        }
    }
}

} // verus!
