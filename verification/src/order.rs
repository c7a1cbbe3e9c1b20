//! Stable ordering: where an item goes into a sorted sequence, and the
//! sequence that inserting item after item gives.

use vstd::prelude::*;

verus! {

/// The place of `x` in `sorted`: behind every item that may stand before it,
/// up to the first one that may not.
pub open spec fn slot<T>(sorted: Seq<T>, x: T, le: spec_fn(T, T) -> bool) -> int
    decreases sorted.len(),
{
    if sorted.len() == 0 {
        0
    } else if !le(sorted[0], x) {
        0
    } else {
        1 + slot(sorted.drop_first(), x, le)
    }
}

/// `sorted` with `x` at its place.
pub open spec fn inserted<T>(sorted: Seq<T>, x: T, le: spec_fn(T, T) -> bool) -> Seq<T> {
    sorted.insert(slot(sorted, x, le), x)
}

/// The items in order, those that tie in the order of their arrival.
pub open spec fn stable_sorted<T>(items: Seq<T>, le: spec_fn(T, T) -> bool) -> Seq<T>
    decreases items.len(),
{
    if items.len() == 0 {
        Seq::empty()
    } else {
        inserted(stable_sorted(items.drop_last(), le), items.last(), le)
    }
}

/// The place is a position of the sequence or its length; every item before
/// it may stand before `x`, and the item at it may not.
pub proof fn lemma_slot<T>(sorted: Seq<T>, x: T, le: spec_fn(T, T) -> bool)
    ensures
        0 <= slot(sorted, x, le) <= sorted.len(),
        forall|j: int| 0 <= j < slot(sorted, x, le) ==> le(#[trigger] sorted[j], x),
        slot(sorted, x, le) < sorted.len() ==> !le(sorted[slot(sorted, x, le)], x),
    decreases sorted.len(),
{
    if sorted.len() > 0 && le(sorted[0], x) {
        let rest = sorted.drop_first();
        lemma_slot(rest, x, le);
        assert forall|j: int| 0 <= j < slot(sorted, x, le) implies le(#[trigger] sorted[j], x) by {
            if j > 0 {
                assert(sorted[j] == rest[j - 1]);
            }
        }
    }
}

/// A position is the place of `x` if every item before it may stand before
/// `x` and the item at it may not.
pub proof fn lemma_slot_is<T>(sorted: Seq<T>, x: T, le: spec_fn(T, T) -> bool, p: int)
    requires
        0 <= p <= sorted.len(),
        forall|j: int| 0 <= j < p ==> le(#[trigger] sorted[j], x),
        p < sorted.len() ==> !le(sorted[p], x),
    ensures
        slot(sorted, x, le) == p,
{
    lemma_slot(sorted, x, le);
    let s = slot(sorted, x, le);
    if s < p {
        assert(le(sorted[s], x));
    }
}

/// Sorting keeps the number of items.
pub proof fn lemma_stable_sorted_len<T>(items: Seq<T>, le: spec_fn(T, T) -> bool)
    ensures
        stable_sorted(items, le).len() == items.len(),
    decreases items.len(),
{
    if items.len() > 0 {
        lemma_stable_sorted_len(items.drop_last(), le);
        lemma_slot(stable_sorted(items.drop_last(), le), items.last(), le);
    }
}

/// Whether each item may stand before each later one.
pub open spec fn in_order<T>(items: Seq<T>, le: spec_fn(T, T) -> bool) -> bool {
    forall|i: int, j: int| 0 <= i < j < items.len() ==> le(#[trigger] items[i], #[trigger] items[j])
}

/// Under an order that is total and transitive, the sorted sequence is in
/// order.
pub proof fn lemma_stable_sorted_in_order<T>(items: Seq<T>, le: spec_fn(T, T) -> bool)
    requires
        forall|a: T, b: T| #[trigger] le(a, b) || #[trigger] le(b, a),
        forall|a: T, b: T, c: T| #[trigger] le(a, b) && #[trigger] le(b, c) ==> le(a, c),
    ensures
        in_order(stable_sorted(items, le), le),
    decreases items.len(),
{
    if items.len() > 0 {
        let before = stable_sorted(items.drop_last(), le);
        let x = items.last();
        lemma_stable_sorted_in_order(items.drop_last(), le);
        lemma_slot(before, x, le);
        let p = slot(before, x, le);
        let out = before.insert(p, x);
        assert forall|i: int, j: int| 0 <= i < j < out.len() implies le(
            #[trigger] out[i],
            #[trigger] out[j],
        ) by {
            if j < p {
                assert(out[i] == before[i] && out[j] == before[j]);
            } else if j == p {
                assert(out[i] == before[i]);
            } else if i == p {
                assert(out[j] == before[j - 1]);
                assert(!le(before[p], x));
                assert(le(x, before[p]));
                if j - 1 > p {
                    assert(le(before[p], before[j - 1]));
                }
            } else if i < p {
                assert(out[i] == before[i] && out[j] == before[j - 1]);
            } else {
                assert(out[i] == before[i - 1] && out[j] == before[j - 1]);
            }
        }
    }
}

/// Sorting rearranges: the sorted sequence holds each item as often as the
/// input does.
pub proof fn lemma_stable_sorted_rearranges<T>(items: Seq<T>, le: spec_fn(T, T) -> bool)
    ensures
        stable_sorted(items, le).to_multiset() == items.to_multiset(),
    decreases items.len(),
{
    broadcast use vstd::seq_lib::group_to_multiset_ensures;

    if items.len() > 0 {
        let head = items.drop_last();
        let before = stable_sorted(head, le);
        let x = items.last();
        lemma_stable_sorted_rearranges(head, le);
        lemma_slot(before, x, le);
        assert(items =~= head.push(x));
        assert(before.insert(slot(before, x, le), x).to_multiset() =~= before.to_multiset().insert(
            x,
        ));
        assert(head.push(x).to_multiset() =~= head.to_multiset().insert(x));
    } else {
        assert(items.to_multiset() =~= stable_sorted(items, le).to_multiset());
    }
}

} // verus!
