//! What holds of every directory listing that was put in order.

use crate::listing::{spec_insert_sorted, spec_sort};
use crate::ordering::{
    KeyedView, lemma_item_order_splits, lemma_text_order_is_asymmetric, spec_item_precedes,
};
use vstd::prelude::*;

verus! {

/// Whether no entry of `items` is shown before one that stands earlier.
pub open spec fn spec_is_ordered(items: Seq<KeyedView>) -> bool {
    forall|i: int, j: int|
        0 <= i < j < items.len() ==> !spec_item_precedes(#[trigger] items[j], #[trigger] items[i])
}

/// Putting an entry in adds that entry and nothing else, and takes nothing away.
pub proof fn lemma_insert_keeps_items(sorted: Seq<KeyedView>, item: KeyedView)
    ensures
        spec_insert_sorted(sorted, item).len() == sorted.len() + 1,
        spec_insert_sorted(sorted, item).to_multiset() == sorted.to_multiset().insert(item),
    decreases sorted.len(),
{
    broadcast use vstd::seq_lib::group_to_multiset_ensures;

    if sorted.len() == 0 {
        assert(sorted =~= Seq::<KeyedView>::empty());
        assert(seq![item] =~= Seq::<KeyedView>::empty().push(item));
    } else if spec_item_precedes(item, sorted.last()) {
        lemma_insert_keeps_items(sorted.drop_last(), item);
        assert(sorted =~= sorted.drop_last().push(sorted.last()));
        assert(sorted.drop_last().to_multiset().insert(item).insert(sorted.last())
            =~= sorted.drop_last().to_multiset().insert(sorted.last()).insert(item));
    }
}

/// Every entry of a sequence that an entry was put into is that entry or
/// one that was there before.
pub proof fn lemma_insert_members(sorted: Seq<KeyedView>, item: KeyedView)
    ensures
        forall|k: int|
            0 <= k < spec_insert_sorted(sorted, item).len() ==> {
                ||| #[trigger] spec_insert_sorted(sorted, item)[k] == item
                ||| sorted.contains(spec_insert_sorted(sorted, item)[k])
            },
    decreases sorted.len(),
{
    let result = spec_insert_sorted(sorted, item);
    if sorted.len() > 0 && spec_item_precedes(item, sorted.last()) {
        let shorter = sorted.drop_last();
        let inner = spec_insert_sorted(shorter, item);
        lemma_insert_members(shorter, item);
        assert forall|k: int| 0 <= k < result.len() implies {
            ||| #[trigger] result[k] == item
            ||| sorted.contains(result[k])
        } by {
            if k < inner.len() {
                if inner[k] != item {
                    let j = choose|j: int| 0 <= j < shorter.len() && shorter[j] == inner[k];
                    assert(sorted[j] == result[k]);
                }
            } else {
                assert(sorted[sorted.len() - 1] == result[k]);
            }
        }
    } else if sorted.len() > 0 {
        assert forall|k: int| 0 <= k < result.len() implies {
            ||| #[trigger] result[k] == item
            ||| sorted.contains(result[k])
        } by {
            if k < sorted.len() {
                assert(sorted[k] == result[k]);
            }
        }
    }
}

/// Putting an entry into an ordered sequence leaves it ordered.
pub proof fn lemma_insert_keeps_order(sorted: Seq<KeyedView>, item: KeyedView)
    requires
        spec_is_ordered(sorted),
    ensures
        spec_is_ordered(spec_insert_sorted(sorted, item)),
    decreases sorted.len(),
{
    let result = spec_insert_sorted(sorted, item);
    if sorted.len() == 0 {
    } else if spec_item_precedes(item, sorted.last()) {
        let shorter = sorted.drop_last();
        let inner = spec_insert_sorted(shorter, item);
        let last = sorted.last();
        assert(spec_is_ordered(shorter)) by {
            assert forall|i: int, j: int| 0 <= i < j < shorter.len() implies !spec_item_precedes(
                #[trigger] shorter[j],
                #[trigger] shorter[i],
            ) by {
                assert(shorter[i] == sorted[i] && shorter[j] == sorted[j]);
            }
        }
        lemma_insert_keeps_order(shorter, item);
        lemma_insert_members(shorter, item);
        lemma_insert_keeps_items(shorter, item);
        assert forall|i: int, j: int| 0 <= i < j < result.len() implies !spec_item_precedes(
            #[trigger] result[j],
            #[trigger] result[i],
        ) by {
            if j < inner.len() {
                assert(result[i] == inner[i] && result[j] == inner[j]);
            } else {
                assert(result[j] == last);
                assert(result[i] == inner[i]);
                if inner[i] == item {
                    if item.entry.is_directory == last.entry.is_directory {
                        lemma_text_order_is_asymmetric(item.key, last.key);
                    }
                } else {
                    let k = choose|k: int| 0 <= k < shorter.len() && shorter[k] == inner[i];
                    assert(sorted[k] == inner[i]);
                    assert(sorted[sorted.len() - 1] == last);
                }
            }
        }
    } else {
        let last = sorted.last();
        assert forall|i: int, j: int| 0 <= i < j < result.len() implies !spec_item_precedes(
            #[trigger] result[j],
            #[trigger] result[i],
        ) by {
            if j < sorted.len() {
                assert(result[i] == sorted[i] && result[j] == sorted[j]);
            } else {
                assert(result[j] == item);
                assert(result[i] == sorted[i]);
                if spec_item_precedes(item, sorted[i]) {
                    lemma_item_order_splits(item, last, sorted[i]);
                    if i < sorted.len() - 1 {
                        assert(!spec_item_precedes(sorted[sorted.len() - 1], sorted[i]));
                    } else {
                        assert(sorted[i] == last);
                    }
                }
            }
        }
    }
}

/// A listing that was put in order is ordered: no entry is shown before one
/// that stands earlier.
pub proof fn lemma_sort_is_ordered(items: Seq<KeyedView>)
    ensures
        spec_is_ordered(spec_sort(items)),
    decreases items.len(),
{
    if items.len() > 0 {
        lemma_sort_is_ordered(items.drop_last());
        lemma_insert_keeps_order(spec_sort(items.drop_last()), items.last());
    }
}

/// A listing that was put in order holds the entries it held before, each
/// as often as before.
pub proof fn lemma_sort_keeps_items(items: Seq<KeyedView>)
    ensures
        spec_sort(items).len() == items.len(),
        spec_sort(items).to_multiset() == items.to_multiset(),
    decreases items.len(),
{
    broadcast use vstd::seq_lib::group_to_multiset_ensures;

    if items.len() == 0 {
        assert(items =~= Seq::<KeyedView>::empty());
    } else {
        lemma_sort_keeps_items(items.drop_last());
        lemma_insert_keeps_items(spec_sort(items.drop_last()), items.last());
        assert(items =~= items.drop_last().push(items.last()));
    }
}

/// In a listing that was put in order every directory stands before every file.
pub proof fn lemma_directories_come_first(items: Seq<KeyedView>)
    ensures
        forall|i: int, j: int|
            0 <= i < j < spec_sort(items).len() && (#[trigger] spec_sort(
                items,
            )[j]).entry.is_directory ==> (#[trigger] spec_sort(items)[i]).entry.is_directory,
{
    lemma_sort_is_ordered(items);
    let sorted = spec_sort(items);
    assert forall|i: int, j: int|
        0 <= i < j < sorted.len() && (#[trigger] sorted[j]).entry.is_directory implies (
    #[trigger] sorted[i]).entry.is_directory by {
        assert(!spec_item_precedes(sorted[j], sorted[i]));
    }
}

} // verus!
