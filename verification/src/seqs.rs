//! Searching a sequence for its first element of some kind.

use vstd::prelude::*;

verus! {

/// The least position, not before `from`, whose element satisfies `wanted`.
pub open spec fn first_from<T>(items: Seq<T>, wanted: spec_fn(T) -> bool, from: int) -> Option<int>
    decreases items.len() - from,
{
    if from < 0 || from >= items.len() {
        None
    } else if wanted(items[from]) {
        Some(from)
    } else {
        first_from(items, wanted, from + 1)
    }
}

/// The position of the first element that satisfies `wanted`.
pub open spec fn first_index<T>(items: Seq<T>, wanted: spec_fn(T) -> bool) -> Option<int> {
    first_from(items, wanted, 0)
}

/// Whether `at` is the least position, not before `from`, whose element satisfies
/// `wanted`.
pub open spec fn is_first_from<T>(
    items: Seq<T>,
    wanted: spec_fn(T) -> bool,
    from: int,
    at: int,
) -> bool {
    &&& from <= at < items.len()
    &&& wanted(items[at])
    &&& forall|j: int| from <= j < at ==> !wanted(#[trigger] items[j])
}

/// Whether no element at or after `from` satisfies `wanted`.
pub open spec fn none_from<T>(items: Seq<T>, wanted: spec_fn(T) -> bool, from: int) -> bool {
    forall|j: int| from <= j < items.len() ==> !wanted(#[trigger] items[j])
}

/// The search finds the least position that fits, and finds nothing only where
/// nothing fits.
pub proof fn lemma_first_from<T>(items: Seq<T>, wanted: spec_fn(T) -> bool, from: int)
    requires
        0 <= from,
    ensures
        match first_from(items, wanted, from) {
            Some(at) => is_first_from(items, wanted, from, at),
            None => none_from(items, wanted, from),
        },
    decreases items.len() - from,
{
    if from < items.len() && !wanted(items[from]) {
        lemma_first_from(items, wanted, from + 1);
    }
}

} // verus!
