//! Finding the first item of a sequence that has a given property.

use vstd::prelude::*;

verus! {

/// Whether `i` is the first place of `items` at which `wanted` holds.
pub open spec fn is_first_where<T>(items: Seq<T>, wanted: spec_fn(T) -> bool, i: int) -> bool {
    &&& 0 <= i < items.len()
    &&& wanted(items[i])
    &&& forall|j: int| 0 <= j < i ==> !wanted(#[trigger] items[j])
}

/// The first place of `items` at which `wanted` holds, if there is one.
pub open spec fn first_where<T>(items: Seq<T>, wanted: spec_fn(T) -> bool) -> Option<int> {
    if exists|i: int| is_first_where(items, wanted, i) {
        Some(choose|i: int| is_first_where(items, wanted, i))
    } else {
        None
    }
}

/// A place found by a scan from the front is the one `first_where` names.
pub proof fn lemma_first_where_found<T>(items: Seq<T>, wanted: spec_fn(T) -> bool, i: int)
    requires
        is_first_where(items, wanted, i),
    ensures
        first_where(items, wanted) == Some(i),
{
    let chosen = choose|k: int| is_first_where(items, wanted, k);
    if chosen < i {
        assert(!wanted(items[chosen]));
    }
    if i < chosen {
        assert(!wanted(items[i]));
    }
}

/// A scan that found nothing means that `first_where` names no place.
pub proof fn lemma_first_where_absent<T>(items: Seq<T>, wanted: spec_fn(T) -> bool)
    requires
        forall|j: int| 0 <= j < items.len() ==> !wanted(#[trigger] items[j]),
    ensures
        first_where(items, wanted) is None,
{
}

} // verus!
