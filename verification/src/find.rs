//! Finding the first occurrence of a value in a sequence.

use vstd::prelude::*;

verus! {

/// The position of the first of `items` at or after `from` that equals
/// `item`, or the number of items where there is none.
pub open spec fn found_from<T>(items: Seq<T>, item: T, from: int) -> int
    decreases items.len() - from,
{
    if from < 0 || from >= items.len() {
        items.len() as int
    } else if items[from] == item {
        from
    } else {
        found_from(items, item, from + 1)
    }
}

/// The bounds of `found_from`, and what it finds.
pub proof fn lemma_found_from<T>(items: Seq<T>, item: T, from: int)
    requires
        0 <= from <= items.len(),
    ensures
        from <= found_from(items, item, from) <= items.len(),
        forall|j: int| from <= j < found_from(items, item, from) ==> #[trigger] items[j] != item,
        found_from(items, item, from) < items.len() ==> items[found_from(items, item, from)]
            == item,
    decreases items.len() - from,
{
    if from < items.len() && items[from] != item {
        lemma_found_from(items, item, from + 1);
    }
}

} // verus!
