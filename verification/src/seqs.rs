//! Facts about filtered sequences that the rest of the crate builds on.

use vstd::prelude::*;

verus! {

/// Filtering by a test that every element passes keeps the sequence.
pub proof fn lemma_filter_all<A>(s: Seq<A>, pred: spec_fn(A) -> bool)
    requires
        forall|i: int| 0 <= i < s.len() ==> pred(#[trigger] s[i]),
    ensures
        s.filter(pred) == s,
    decreases s.len(),
{
    reveal(Seq::filter);
    if s.len() > 0 {
        let front = s.drop_last();
        assert forall|i: int| 0 <= i < front.len() implies pred(#[trigger] front[i]) by {}
        lemma_filter_all(front, pred);
    }
}

/// Filtering by a test that no element passes leaves nothing.
pub proof fn lemma_filter_none<A>(s: Seq<A>, pred: spec_fn(A) -> bool)
    requires
        forall|i: int| 0 <= i < s.len() ==> !pred(#[trigger] s[i]),
    ensures
        s.filter(pred) == Seq::<A>::empty(),
    decreases s.len(),
{
    reveal(Seq::filter);
    if s.len() > 0 {
        let front = s.drop_last();
        assert forall|i: int| 0 <= i < front.len() implies !pred(#[trigger] front[i]) by {}
        lemma_filter_none(front, pred);
    }
}

/// Every element of a filtered sequence passes the test and comes from the
/// sequence, every element of the sequence that passes the test is in the
/// filtered one, and what comes out holds no more than what went in.
pub proof fn lemma_filter_members<A>(s: Seq<A>, pred: spec_fn(A) -> bool)
    ensures
        s.filter(pred).len() <= s.len(),
        forall|k: int|
            0 <= k < s.filter(pred).len() ==> pred(#[trigger] s.filter(pred)[k]) && s.contains(
                s.filter(pred)[k],
            ),
        forall|i: int|
            0 <= i < s.len() && pred(s[i]) ==> s.filter(pred).contains(#[trigger] s[i]),
    decreases s.len(),
{
    reveal(Seq::filter);
    if s.len() > 0 {
        let front = s.drop_last();
        lemma_filter_members(front, pred);
        let kept = front.filter(pred);
        let out = s.filter(pred);
        assert forall|k: int| 0 <= k < out.len() implies pred(#[trigger] out[k]) && s.contains(
            out[k],
        ) by {
            if k < kept.len() {
                // An element kept from the front stands in the front, so in `s`.
                let i = choose|i: int| 0 <= i < front.len() && front[i] == out[k];
                assert(s[i] == out[k]);
            }
        }
        assert forall|i: int| 0 <= i < s.len() && pred(s[i]) implies out.contains(
            #[trigger] s[i],
        ) by {
            if i < front.len() {
                let k = choose|k: int| 0 <= k < kept.len() && kept[k] == front[i];
                assert(out[k] == s[i]);
            }
        }
    }
}

/// Filtering a sequence without duplicates leaves no duplicates.
pub proof fn lemma_filter_no_duplicates<A>(s: Seq<A>, pred: spec_fn(A) -> bool)
    requires
        s.no_duplicates(),
    ensures
        s.filter(pred).no_duplicates(),
    decreases s.len(),
{
    reveal(Seq::filter);
    if s.len() > 0 {
        let front = s.drop_last();
        lemma_filter_no_duplicates(front, pred);
        // What is kept from the front stands in the front, so it is not the last.
        lemma_filter_members(front, pred);
        if pred(s.last()) {
            let out = front.filter(pred).push(s.last());
            assert forall|i: int, j: int| 0 <= i < out.len() && 0 <= j < out.len() && i
                != j implies out[i] != out[j] by {}
        }
    }
}

} // verus!
