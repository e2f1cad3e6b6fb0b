//! Collections seen through the views of their elements.

use vstd::prelude::*;

verus! {

/// The views of the elements of a sequence.
pub open spec fn views<T: View>(items: Seq<T>) -> Seq<T::V> {
    items.map_values(|item: T| item@)
}

/// The view of an optional value.
pub open spec fn view_of<T: View>(item: Option<T>) -> Option<T::V> {
    match item {
        Some(item) => Some(item@),
        None => None,
    }
}

/// The position of the first item with a property, or the number of items.
pub open spec fn first_where<T>(items: Seq<T>, p: spec_fn(T) -> bool) -> int
    decreases items.len(),
{
    if items.len() == 0 || p(items.first()) {
        0
    } else {
        1 + first_where(items.drop_first(), p)
    }
}

/// The first item with a property is where no item before it has the property.
pub proof fn lemma_first_where<T>(items: Seq<T>, p: spec_fn(T) -> bool, k: int)
    requires
        0 <= k <= items.len(),
        forall|i: int| 0 <= i < k ==> !p(#[trigger] items[i]),
        k < items.len() ==> p(items[k]),
    ensures
        first_where(items, p) == k,
    decreases items.len(),
{
    if k > 0 {
        let rest = items.drop_first();
        assert(!p(items[0]));
        assert forall|i: int| 0 <= i < k - 1 implies !p(#[trigger] rest[i]) by {
            assert(rest[i] == items[i + 1]);
        }
        lemma_first_where(rest, p, k - 1);
    }
}

/// Whether some item has a property can be told by the first one.
pub proof fn lemma_first_where_bounds<T>(items: Seq<T>, p: spec_fn(T) -> bool)
    ensures
        0 <= first_where(items, p) <= items.len(),
        first_where(items, p) < items.len() ==> p(items[first_where(items, p)]),
        forall|i: int| 0 <= i < first_where(items, p) ==> !p(#[trigger] items[i]),
    decreases items.len(),
{
    if items.len() > 0 && !p(items.first()) {
        let rest = items.drop_first();
        lemma_first_where_bounds(rest, p);
        assert forall|i: int| 0 <= i < first_where(items, p) implies !p(#[trigger] items[i]) by {
            if i > 0 {
                assert(items[i] == rest[i - 1]);
            }
        }
    }
}

} // verus!
