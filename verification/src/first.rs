//! The first place at which a sequence holds a given item.

use vstd::prelude::*;

verus! {

/// `at` is the first place in `items` that holds `item`.
pub open spec fn first_at<T>(items: Seq<T>, item: T, at: int) -> bool {
    &&& 0 <= at < items.len()
    &&& items[at] == item
    &&& forall|before: int| 0 <= before < at ==> items[before] != item
}

/// The first place in `items` that holds `item`, if any does.
pub open spec fn first_of<T>(items: Seq<T>, item: T) -> Option<int> {
    if exists|at: int| first_at(items, item, at) {
        Some(choose|at: int| first_at(items, item, at))
    } else {
        None
    }
}

/// The first place that holds an item is the only first place.
pub proof fn lemma_first_at_is_first_of<T>(items: Seq<T>, item: T, at: int)
    requires
        first_at(items, item, at),
    ensures
        first_of(items, item) == Some(at),
{
    let chosen = choose|at: int| first_at(items, item, at);
    assert(first_at(items, item, chosen));
    if chosen < at {
        assert(items[chosen] != item);
    }
    if at < chosen {
        assert(items[at] != item);
    }
}

/// Where no place holds an item, there is no first place.
pub proof fn lemma_absent_has_no_first<T>(items: Seq<T>, item: T)
    requires
        forall|at: int| 0 <= at < items.len() ==> items[at] != item,
    ensures
        first_of(items, item) is None,
{
    assert forall|at: int| !first_at(items, item, at) by {
        if 0 <= at < items.len() {
            assert(items[at] != item);
        }
    }
}

} // verus!
