//! The filter engine: which entries of a group a query leaves visible, and
//! where each visible entry stands in the full list.

use crate::domain::{GroupModel, SelectableItemModel};
use crate::text::{contains_str, is_substring, lemma_empty_is_substring};
use vstd::prelude::*;

verus! {

/// An entry is visible under a query when its label contains the query.
pub open spec fn item_matches(item: SelectableItemModel, query: Seq<char>) -> bool {
    is_substring(query, item.label@)
}

/// The positions of the visible entries, in the order of the list.
pub open spec fn visible_indices(items: Seq<SelectableItemModel>, query: Seq<char>) -> Seq<usize>
    decreases items.len(),
{
    if items.len() == 0 {
        Seq::empty()
    } else {
        let before = visible_indices(items.drop_last(), query);
        if item_matches(items.last(), query) {
            before.push((items.len() - 1) as usize)
        } else {
            before
        }
    }
}

/// The visible entries of a group and, for each, its position in the group.
pub struct Filtered<'a> {
    pub visible_items: Vec<&'a SelectableItemModel>,
    pub local_to_global: Vec<usize>,
}

/// Filters a group's entries by a query. The result lists, in the group's
/// order, exactly the entries whose label contains the query;
/// `local_to_global[i]` is the position in the group of `visible_items[i]`.
pub fn filter<'a>(group: &'a GroupModel, query: &str) -> (out: Filtered<'a>)
    ensures
        out.local_to_global@ == visible_indices(group.items@, query@),
        out.visible_items@.len() == out.local_to_global@.len(),
        forall|i: int|
            0 <= i < out.visible_items@.len() ==> 0 <= #[trigger] out.local_to_global@[i]
                < group.items@.len() && *out.visible_items@[i]
                == group.items@[out.local_to_global@[i] as int] && item_matches(
                *out.visible_items@[i],
                query@,
            ),
        forall|i: int, j: int|
            0 <= i < j < out.local_to_global@.len() ==> out.local_to_global@[i]
                < out.local_to_global@[j],
        forall|g: int|
            0 <= g < group.items@.len() && item_matches(#[trigger] group.items@[g], query@)
                ==> exists|i: int|
                0 <= i < out.local_to_global@.len() && #[trigger] out.local_to_global@[i] == g,
{
    let mut visible_items: Vec<&'a SelectableItemModel> = Vec::new();
    let mut local_to_global: Vec<usize> = Vec::new();
    let mut i: usize = 0;
    while i < group.items.len()
        invariant
            i <= group.items.len(),
            local_to_global@ == visible_indices(group.items@.subrange(0, i as int), query@),
            visible_items@.len() == local_to_global@.len(),
            forall|k: int|
                0 <= k < visible_items@.len() ==> 0 <= #[trigger] local_to_global@[k] < i
                    && *visible_items@[k] == group.items@[local_to_global@[k] as int],
        decreases group.items.len() - i,
    {
        let item = &group.items[i];
        proof {
            let next = group.items@.subrange(0, i + 1);
            assert(next.drop_last() =~= group.items@.subrange(0, i as int));
            assert(next.last() == group.items@[i as int]);
        }
        if contains_str(item.label.as_str(), query) {
            visible_items.push(item);
            local_to_global.push(i);
        }
        i += 1;
    }
    let out = Filtered { visible_items, local_to_global };
    proof {
        assert(group.items@.subrange(0, i as int) =~= group.items@);
        lemma_visible_exact(group.items@, query@);
        let all = visible_indices(group.items@, query@);
        assert forall|g: int|
            0 <= g < group.items@.len() && item_matches(
                #[trigger] group.items@[g],
                query@,
            ) implies exists|k: int|
            0 <= k < out.local_to_global@.len() && #[trigger] out.local_to_global@[k] == g by {
            let k = choose|k: int| 0 <= k < all.len() && all[k] == g;
            assert(out.local_to_global@[k] == g);
        }
    }
    out
}

/// The visible positions are positions of the list, each of a matching
/// entry; they increase strictly; and no matching position is left out.
pub proof fn lemma_visible_exact(items: Seq<SelectableItemModel>, query: Seq<char>)
    requires
        items.len() <= usize::MAX,
    ensures
        visible_indices(items, query).len() <= items.len(),
        forall|k: int|
            0 <= k < visible_indices(items, query).len() ==> 0 <= #[trigger] visible_indices(
                items,
                query,
            )[k] < items.len() && item_matches(
                items[visible_indices(items, query)[k] as int],
                query,
            ),
        forall|j: int, k: int|
            0 <= j < k < visible_indices(items, query).len() ==> visible_indices(items, query)[j]
                < visible_indices(items, query)[k],
        forall|g: int|
            0 <= g < items.len() && item_matches(#[trigger] items[g], query) ==> exists|k: int|
                0 <= k < visible_indices(items, query).len() && visible_indices(items, query)[k]
                    == g,
    decreases items.len(),
{
    if items.len() > 0 {
        let shorter = items.drop_last();
        let before = visible_indices(shorter, query);
        let all = visible_indices(items, query);
        lemma_visible_exact(shorter, query);
        assert forall|g: int| 0 <= g < items.len() && item_matches(#[trigger] items[g], query)
        implies exists|k: int| 0 <= k < all.len() && all[k] == g by {
            if g < items.len() - 1 {
                assert(shorter[g] == items[g]);
                let k = choose|k: int| 0 <= k < before.len() && before[k] == g;
                assert(all[k] == g);
            } else {
                assert(items.last() == items[g]);
                assert(all[all.len() - 1] == g);
            }
        }
        assert forall|k: int| 0 <= k < all.len() implies 0 <= #[trigger] all[k] < items.len()
            && item_matches(items[all[k] as int], query) by {
            if k < before.len() {
                assert(all[k] == before[k]);
                assert(shorter[before[k] as int] == items[before[k] as int]);
            }
        }
        assert forall|j: int, k: int| 0 <= j < k < all.len() implies all[j] < all[k] by {
            if k < before.len() {
                assert(all[j] == before[j] && all[k] == before[k]);
            } else {
                assert(all[j] == before[j]);
            }
        }
    }
}

/// The empty query leaves every entry visible, each at its own position.
pub proof fn lemma_empty_query_identity(items: Seq<SelectableItemModel>)
    requires
        items.len() <= usize::MAX,
    ensures
        visible_indices(items, Seq::<char>::empty()) == Seq::new(
            items.len(),
            |i: int| i as usize,
        ),
    decreases items.len(),
{
    let query = Seq::<char>::empty();
    if items.len() > 0 {
        lemma_empty_query_identity(items.drop_last());
        lemma_empty_is_substring(items.last().label@);
    }
    assert(visible_indices(items, query) =~= Seq::new(items.len(), |i: int| i as usize));
}

/// A query that no label contains leaves nothing visible.
pub proof fn lemma_no_match_empty(items: Seq<SelectableItemModel>, query: Seq<char>)
    requires
        forall|g: int| 0 <= g < items.len() ==> !item_matches(#[trigger] items[g], query),
    ensures
        visible_indices(items, query).len() == 0,
    decreases items.len(),
{
    if items.len() > 0 {
        let shorter = items.drop_last();
        assert forall|g: int| 0 <= g < shorter.len() implies !item_matches(
            #[trigger] shorter[g],
            query,
        ) by {
            assert(shorter[g] == items[g]);
        }
        lemma_no_match_empty(shorter, query);
        assert(items.last() == items[items.len() - 1]);
    }
}

} // verus!
