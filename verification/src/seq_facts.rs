//! Facts about filtered sequences that the proofs about todos share.

use vstd::prelude::*;

verus! {

/// A filter keeps a sequence whose members all pass it, and empties one
/// whose members all fail it.
pub proof fn lemma_filter_all_or_none<A>(items: Seq<A>, pred: spec_fn(A) -> bool)
    ensures
        (forall|i: int| 0 <= i < items.len() ==> pred(#[trigger] items[i])) ==> items.filter(pred)
            == items,
        (forall|i: int| 0 <= i < items.len() ==> !pred(#[trigger] items[i])) ==> items.filter(pred)
            == Seq::<A>::empty(),
    decreases items.len(),
{
    reveal(Seq::filter);
    if items.len() > 0 {
        let init = items.drop_last();
        lemma_filter_all_or_none(init, pred);
        if forall|i: int| 0 <= i < items.len() ==> pred(#[trigger] items[i]) {
            assert forall|i: int| 0 <= i < init.len() implies pred(#[trigger] init[i]) by {
                assert(init[i] == items[i]);
            }
            assert(init.push(items.last()) =~= items);
        }
        if forall|i: int| 0 <= i < items.len() ==> !pred(#[trigger] items[i]) {
            assert forall|i: int| 0 <= i < init.len() implies !pred(#[trigger] init[i]) by {
                assert(init[i] == items[i]);
            }
        }
    } else {
        assert(items =~= Seq::<A>::empty());
    }
}

/// Two filters that agree on every member of a sequence keep the same
/// members of it.
pub proof fn lemma_filter_agree<A>(items: Seq<A>, first: spec_fn(A) -> bool, second: spec_fn(A) -> bool)
    requires
        forall|i: int| 0 <= i < items.len() ==> first(#[trigger] items[i]) == second(items[i]),
    ensures
        items.filter(first) == items.filter(second),
    decreases items.len(),
{
    reveal(Seq::filter);
    if items.len() > 0 {
        let init = items.drop_last();
        assert forall|i: int| 0 <= i < init.len() implies first(#[trigger] init[i]) == second(
            init[i],
        ) by {
            assert(init[i] == items[i]);
        }
        lemma_filter_agree(init, first, second);
        assert(first(items[items.len() - 1]) == second(items[items.len() - 1]));
    }
}

/// Where no member of a sequence passes both of two filters, the members
/// that pass one of them are those that pass the first together with those
/// that pass the second.
pub proof fn lemma_filter_either<A>(
    items: Seq<A>,
    first: spec_fn(A) -> bool,
    second: spec_fn(A) -> bool,
    either: spec_fn(A) -> bool,
)
    requires
        forall|i: int|
            0 <= i < items.len() ==> either(#[trigger] items[i]) == (first(items[i]) || second(
                items[i],
            )),
        forall|i: int| 0 <= i < items.len() ==> !(first(#[trigger] items[i]) && second(items[i])),
    ensures
        items.filter(either).to_multiset() == items.filter(first).to_multiset().add(
            items.filter(second).to_multiset(),
        ),
    decreases items.len(),
{
    broadcast use {vstd::seq_lib::to_multiset_build, vstd::seq_lib::to_multiset_len};

    if items.len() > 0 {
        let init = items.drop_last();
        let last = items.last();
        assert forall|i: int| 0 <= i < init.len() implies either(#[trigger] init[i]) == (first(
            init[i],
        ) || second(init[i])) && !(first(init[i]) && second(init[i])) by {
            assert(init[i] == items[i]);
        }
        lemma_filter_either(init, first, second, either);
        assert(last == items[items.len() - 1]);
        assert(items =~= init.push(last));
        init.lemma_filter_push(last, first);
        init.lemma_filter_push(last, second);
        init.lemma_filter_push(last, either);
        assert(items.filter(either).to_multiset() =~= items.filter(first).to_multiset().add(
            items.filter(second).to_multiset(),
        ));
    } else {
        items.lemma_filter_len(first);
        items.lemma_filter_len(second);
        items.lemma_filter_len(either);
        vstd::multiset::lemma_multiset_empty_len(items.filter(first).to_multiset());
        vstd::multiset::lemma_multiset_empty_len(items.filter(second).to_multiset());
        vstd::multiset::lemma_multiset_empty_len(items.filter(either).to_multiset());
        assert(items.filter(either).to_multiset() =~= items.filter(first).to_multiset().add(
            items.filter(second).to_multiset(),
        ));
    }
}

/// A filtered sequence holds exactly the members of the sequence that pass
/// the filter.
pub proof fn lemma_filter_members<A>(items: Seq<A>, pred: spec_fn(A) -> bool, item: A)
    ensures
        items.filter(pred).contains(item) <==> items.contains(item) && pred(item),
{
    if items.filter(pred).contains(item) {
        items.lemma_filter_contains_rev(pred, item);
        let at = choose|at: int| 0 <= at < items.filter(pred).len() && items.filter(pred)[at] == item;
        items.lemma_filter_pred(pred, at);
    }
    if items.contains(item) && pred(item) {
        let at = choose|at: int| 0 <= at < items.len() && items[at] == item;
        items.lemma_filter_contains(pred, at);
    }
}

} // verus!
