//! The slot store's aliasing and persistence laws, stated over the spec
//! functions that the store's contracts use.

use vstd::prelude::*;

use crate::payload::SlotPayload;
use crate::payload::SlotValue;
use crate::store::{slot_read, slots_after_read, slots_after_set, stored_form, DataSlot};

verus! {

/// Round trip: after a payload is stored in a slot, a read of that slot
/// observes one of `T`'s stored forms, and the one payload it recovers is
/// the payload that was stored.
pub proof fn lemma_round_trip<T: SlotPayload>(slots: Seq<DataSlot>, i: int, v: T, x: T)
    requires
        0 <= i < slots.len(),
        Some(x.wrap_spec()) == slot_read(slots_after_set(slots, i, stored_form(Some(v))), i),
    ensures
        x == v,
{
    x.lemma_wrap_injective(v);
}

/// Clear semantics: after storing nothing, a read of the slot observes
/// nothing, whatever the slot held before.
pub proof fn lemma_clear<T: SlotPayload>(slots: Seq<DataSlot>, i: int)
    requires
        0 <= i < slots.len(),
    ensures
        slot_read(slots_after_set(slots, i, stored_form(Option::<T>::None)), i) is None,
{
}

/// Independent slots: a write to one slot, and a read taken from one slot,
/// leave every other slot exactly as it was — value, tag and outstanding
/// reads alike; and what a read observes depends on its own slot alone.
pub proof fn lemma_slot_independence(slots: Seq<DataSlot>, i: int, j: int, w: Option<SlotValue>)
    requires
        0 <= i < slots.len(),
        0 <= j < slots.len(),
        i != j,
    ensures
        slots_after_set(slots, i, w)[j] == slots[j],
        slots_after_read(slots, i)[j] == slots[j],
        slot_read(slots_after_set(slots, i, w), j) == slot_read(slots, j),
{
}

/// Borrow conflict: once a read is taken from a slot, its read count is
/// positive, so a write to that slot reports a borrow conflict (by the
/// write's own contract) instead of replacing the value being read.
pub proof fn lemma_read_blocks_set(slots: Seq<DataSlot>, i: int)
    requires
        0 <= i < slots.len(),
        slots[i].reads < usize::MAX,
    ensures
        slots_after_read(slots, i)[i].reads > 0,
{
}

} // verus!
