//! Slot tables: growable arrays whose indices serve as small reusable ids.
//!
//! A new occupant takes the free slot with the lowest index; where every
//! slot is taken the table grows by one.

use vstd::prelude::*;

verus! {

/// Whether slot `id` of `slots` exists and is taken.
pub open spec fn occupied<T>(slots: Seq<Option<T>>, id: int) -> bool {
    0 <= id < slots.len() && slots[id] is Some
}

/// The lowest index at or above `from` whose slot is free, or the length of
/// the table where there is none.
pub open spec fn free_from<T>(slots: Seq<Option<T>>, from: int) -> int
    decreases slots.len() - from,
{
    if from < 0 || from >= slots.len() {
        slots.len() as int
    } else if slots[from] is None {
        from
    } else {
        free_from(slots, from + 1)
    }
}

/// The slot that the next occupant takes.
pub open spec fn first_free<T>(slots: Seq<Option<T>>) -> int {
    free_from(slots, 0)
}

/// The table after `x` has taken slot `id`, which is a free slot or the
/// length of the table.
pub open spec fn placed<T>(slots: Seq<Option<T>>, id: int, x: T) -> Seq<Option<T>> {
    if 0 <= id < slots.len() {
        slots.update(id, Some(x))
    } else {
        slots.push(Some(x))
    }
}

/// The table after slot `id` has been freed.
pub open spec fn vacated<T>(slots: Seq<Option<T>>, id: int) -> Seq<Option<T>> {
    if 0 <= id < slots.len() {
        slots.update(id, None)
    } else {
        slots
    }
}

/// `id` is the free slot with the lowest index, or the length of a full
/// table.
pub open spec fn is_first_free<T>(slots: Seq<Option<T>>, id: int) -> bool {
    &&& 0 <= id <= slots.len()
    &&& forall|j: int| 0 <= j < id ==> (#[trigger] slots[j]) is Some
    &&& id < slots.len() ==> slots[id] is None
}

pub proof fn lemma_free_from<T>(slots: Seq<Option<T>>, from: int)
    requires
        0 <= from <= slots.len(),
    ensures
        from <= free_from(slots, from) <= slots.len(),
        forall|j: int| from <= j < free_from(slots, from) ==> (#[trigger] slots[j]) is Some,
        free_from(slots, from) < slots.len() ==> slots[free_from(slots, from)] is None,
    decreases slots.len() - from,
{
    if from < slots.len() && slots[from] is Some {
        lemma_free_from(slots, from + 1);
    }
}

/// `first_free` names the free slot with the lowest index, and nothing else
/// is one.
pub proof fn lemma_first_free<T>(slots: Seq<Option<T>>)
    ensures
        is_first_free(slots, first_free(slots)),
        forall|id: int| is_first_free(slots, id) ==> id == first_free(slots),
{
    lemma_free_from(slots, 0);
    assert forall|id: int| is_first_free(slots, id) implies id == first_free(slots) by {
        let f = first_free(slots);
        if id < f {
            assert(slots[id] is Some);
        } else if f < id {
            assert(slots[f] is Some);
        }
    }
}

} // verus!
