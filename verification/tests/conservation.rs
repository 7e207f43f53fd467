use atomic_arc::{AtomicArc, SharedRef};
use std::cell::Cell;
use std::rc::Rc;
use std::sync::atomic::Ordering;

/// Counts how many times a watched value has been dropped, so the tests can
/// observe reference-count conservation: an allocation is freed exactly once,
/// and only after its last handle is gone.
struct DropCounter {
    drops: Rc<Cell<u32>>,
}

impl Drop for DropCounter {
    fn drop(&mut self) {
        self.drops.set(self.drops.get() + 1);
    }
}

fn counted(drops: &Rc<Cell<u32>>) -> DropCounter {
    DropCounter { drops: Rc::clone(drops) }
}

#[test]
fn round_trip_preserves_identity_and_count() {
    let drops = Rc::new(Cell::new(0));
    let h = SharedRef::new(counted(&drops));
    let keep = h.clone();
    let out = AtomicArc::from_arc(Some(h)).into_arc().unwrap();
    // The handle comes back identity-equal, and the round trip neither
    // freed the allocation nor leaked a unit.
    assert!(out.ptr_eq(&keep));
    assert_eq!(drops.get(), 0);
    drop(out);
    assert_eq!(drops.get(), 0);
    drop(keep);
    assert_eq!(drops.get(), 1);
}

#[test]
fn swaps_conserve_allocations() {
    // After N swaps, each returned previous value dropped at once, every
    // allocation is freed exactly once and none before its last handle goes.
    let drops = Rc::new(Cell::new(0));
    let n: u32 = 8;
    let mut slot = AtomicArc::new(Some(counted(&drops)));
    for i in 0..n {
        let prev = slot.swap(Some(SharedRef::new(counted(&drops))), Ordering::AcqRel);
        drop(prev);
        assert_eq!(drops.get(), i + 1);
    }
    drop(slot);
    assert_eq!(drops.get(), n + 1);
}

#[test]
fn store_releases_previous_unit() {
    let drops = Rc::new(Cell::new(0));
    let mut slot = AtomicArc::new(Some(counted(&drops)));
    slot.store(Some(SharedRef::new(counted(&drops))), Ordering::Release);
    assert_eq!(drops.get(), 1);
    slot.store(None, Ordering::Release);
    assert_eq!(drops.get(), 2);
}

#[test]
fn load_clones_instead_of_taking() {
    // If load handed the slot's own unit out, dropping the loaded handle
    // would free the allocation while the slot still points at it.
    let drops = Rc::new(Cell::new(0));
    let slot = AtomicArc::new(Some(counted(&drops)));
    let loaded = slot.load(Ordering::Acquire).unwrap();
    drop(loaded);
    assert_eq!(drops.get(), 0);
    drop(slot);
    assert_eq!(drops.get(), 1);
}

#[test]
fn dropping_slot_releases_its_unit_once() {
    let drops = Rc::new(Cell::new(0));
    let slot = AtomicArc::new(Some(counted(&drops)));
    drop(slot);
    assert_eq!(drops.get(), 1);
}

#[test]
fn cas_mismatch_releases_expected_and_new() {
    // On a failed comparison nothing is installed: the units supplied for
    // expected and new are both released, and the slot's own unit stays.
    let slot_drops = Rc::new(Cell::new(0));
    let arg_drops = Rc::new(Cell::new(0));
    let mut slot = AtomicArc::new(Some(counted(&slot_drops)));
    let expected = SharedRef::new(counted(&arg_drops));
    let new = SharedRef::new(counted(&arg_drops));
    let prev = slot.compare_and_swap(Some(expected), Some(new), Ordering::SeqCst);
    assert_eq!(arg_drops.get(), 2);
    assert_eq!(slot_drops.get(), 0);
    drop(prev);
    assert_eq!(slot_drops.get(), 0);
    drop(slot);
    assert_eq!(slot_drops.get(), 1);
}

#[test]
fn cas_success_transfers_units_exactly() {
    // On success the returned handle carries the slot's old unit and
    // expected's unit is released: afterwards exactly one handle (the
    // returned one) still refers to the old allocation.
    let old_drops = Rc::new(Cell::new(0));
    let new_drops = Rc::new(Cell::new(0));
    let mut slot = AtomicArc::new(Some(counted(&old_drops)));
    let expected = slot.load(Ordering::Acquire).unwrap();
    let prev = slot.compare_and_swap(
        Some(expected),
        Some(SharedRef::new(counted(&new_drops))),
        Ordering::SeqCst,
    );
    assert_eq!(old_drops.get(), 0);
    drop(prev);
    assert_eq!(old_drops.get(), 1);
    drop(slot);
    assert_eq!(new_drops.get(), 1);
}
