//! Facts about sequences.

use vstd::prelude::*;

verus! {

/// What a filter lets through was in the sequence.
pub proof fn lemma_filtered_item_is_original<A>(items: Seq<A>, pred: spec_fn(A) -> bool, index: int)
    requires
        0 <= index < items.filter(pred).len(),
    ensures
        items.contains(items.filter(pred)[index]),
    decreases items.len(),
{
    reveal(Seq::filter);
    if items.len() > 0 {
        let start = items.drop_last();
        let before = start.filter(pred);
        if index < before.len() {
            lemma_filtered_item_is_original(start, pred, index);
            let i = choose|i: int| 0 <= i < start.len() && start[i] == before[index];
            assert(items[i] == before[index]);
        } else {
            assert(items[items.len() - 1] == items.filter(pred)[index]);
        }
    }
}

/// What a filter lets through stands in the sequence at rising places, and at every place of an item
/// that it lets through.
pub proof fn lemma_filter_places<A>(items: Seq<A>, pred: spec_fn(A) -> bool) -> (places: Seq<int>)
    ensures
        places.len() == items.filter(pred).len(),
        forall|k: int|
            #![trigger places[k]]
            #![trigger items.filter(pred)[k]]
            0 <= k < places.len() ==> 0 <= places[k] < items.len() && pred(items[places[k]])
                && items.filter(pred)[k] == items[places[k]],
        forall|j: int, k: int|
            #![trigger places[j], places[k]]
            0 <= j < k < places.len() ==> places[j] < places[k],
        forall|i: int| 0 <= i < items.len() && pred(#[trigger] items[i]) ==> places.contains(i),
    decreases items.len(),
{
    reveal(Seq::filter);
    if items.len() == 0 {
        Seq::empty()
    } else {
        let start = items.drop_last();
        let last = items.len() - 1;
        let before = lemma_filter_places(start, pred);
        let places = if pred(items.last()) {
            before.push(last)
        } else {
            before
        };
        assert forall|k: int|
            #![trigger places[k]]
            #![trigger items.filter(pred)[k]]
            0 <= k < places.len() implies 0 <= places[k] < items.len() && pred(items[places[k]])
            && items.filter(pred)[k] == items[places[k]] by {
            if k < before.len() {
                assert(places[k] == before[k]);
                assert(start[before[k]] == items[before[k]]);
                assert(start.filter(pred)[k] == items.filter(pred)[k]);
            }
        }
        assert forall|i: int| 0 <= i < items.len() && pred(#[trigger] items[i]) implies
            places.contains(i) by {
            if i < last {
                assert(start[i] == items[i]);
                let k = choose|k: int| 0 <= k < before.len() && before[k] == i;
                assert(places[k] == i);
            } else {
                assert(places[before.len() as int] == i);
            }
        }
        places
    }
}

} // verus!
