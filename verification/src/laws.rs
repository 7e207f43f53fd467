//! Laws relating sequences of writes to the reads that follow them.
//!
//! `store` and `swap` each leave the slot at exactly the value written
//! (`final(self)@ == new`), and `load` returns exactly what the slot holds
//! (`r == self@`). [`apply_writes`] composes the writers' contracts over a
//! whole sequence of writes, and the lemmas below state what a read or a
//! compare-and-swap sees after such a sequence.

use crate::handle::SharedRef;
use crate::slot::{opt_id, AtomicArc};
use vstd::prelude::*;

verus! {

/// The slot's content after a sequence of unconditional writes (`store` or
/// `swap`), each of which replaces the content with the value written.
pub open spec fn apply_writes<T>(
    init: Option<SharedRef<T>>,
    writes: Seq<Option<SharedRef<T>>>,
) -> Option<SharedRef<T>>
    decreases writes.len(),
{
    if writes.len() == 0 {
        init
    } else {
        apply_writes(writes[0], writes.drop_first())
    }
}

/// Law: after any non-empty sequence of `store`/`swap` calls from a single
/// thread, the slot holds exactly the last value written, so a subsequent
/// `load` — which returns the slot's content — returns a handle equal (in
/// identity and value) to the most recently stored one.
pub proof fn lemma_read_after_write<T>(
    init: Option<SharedRef<T>>,
    writes: Seq<Option<SharedRef<T>>>,
)
    requires
        writes.len() > 0,
    ensures
        apply_writes(init, writes) == writes.last(),
    decreases writes.len(),
{
    let rest = writes.drop_first();
    assert(apply_writes(init, writes) == apply_writes(writes[0], rest));
    if writes.len() == 1 {
        assert(rest.len() == 0);
        assert(apply_writes(writes[0], rest) == writes[0]);
    } else {
        lemma_read_after_write(writes[0], rest);
        assert(rest.last() == writes.last());
    }
}

/// Law: a `swap` (or `store`) of `new` followed immediately by a `load`,
/// with no other writer in between, returns a handle equal to `new`.
pub proof fn lemma_swap_then_load<T>(init: Option<SharedRef<T>>, new: Option<SharedRef<T>>)
    ensures
        apply_writes(init, seq![new]) == new,
{
    let ws = seq![new];
    assert(apply_writes(init, ws) == apply_writes(ws[0], ws.drop_first()));
    assert(ws.drop_first().len() == 0);
}

/// Law: a round trip through the slot returns the handle unchanged. The
/// premises are exactly what `from_arc` ensures of the slot it builds
/// (`slot@ == arc`) and what `into_arc` ensures of what it hands back
/// (`out == slot@`): a handle moved in by the one and recovered by the
/// other comes back equal in identity and value, by direct unit transfer.
pub proof fn lemma_round_trip<T>(
    arc: Option<SharedRef<T>>,
    slot: AtomicArc<T>,
    out: Option<SharedRef<T>>,
)
    requires
        slot@ == arc,
        out == slot@,
    ensures
        out == arc,
{
}

/// Law: `compare_and_swap` transitions the slot if and only if the slot's
/// current identity equals `expected`'s (both absent counts as equal); after
/// a non-empty sequence of writes that is exactly when `expected` is
/// identity-equal to the last value written.
pub proof fn lemma_cas_after_writes<T>(
    init: Option<SharedRef<T>>,
    writes: Seq<Option<SharedRef<T>>>,
    expected: Option<SharedRef<T>>,
)
    requires
        writes.len() > 0,
    ensures
        (opt_id(apply_writes(init, writes)) == opt_id(expected)) <==> (opt_id(writes.last())
            == opt_id(expected)),
{
    lemma_read_after_write(init, writes);
}

} // verus!
