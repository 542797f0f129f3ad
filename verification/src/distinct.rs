//! No item is listed twice.
//!
//! While window identities are unique and no application is pinned twice, the
//! display groups are pairwise different, and so are the items of the dock.

use vstd::prelude::*;
use crate::aggregate::{
    aggregated, group_app, group_led_by, grouped_upto, leads, lemma_groups_are_led, ungrouped,
    GroupView,
};
use crate::display::{
    claimed_by, display_list, items_among, items_for, pinned_section, unclaimed,
    unpinned_section,
};
use crate::pinning::shows;
use crate::seqs::{lemma_filter_members, lemma_filter_no_duplicates};
use crate::window::{unique_ids, ToplevelView};

verus! {

/// Filtering windows with unique identities leaves the identities unique.
pub proof fn lemma_filter_unique_ids(ws: Seq<ToplevelView>, pred: spec_fn(ToplevelView) -> bool)
    requires
        unique_ids(ws),
    ensures
        unique_ids(ws.filter(pred)),
    decreases ws.len(),
{
    reveal(Seq::filter);
    if ws.len() > 0 {
        let front = ws.drop_last();
        assert(unique_ids(front)) by {
            assert forall|i: int, j: int| 0 <= i < j < front.len() implies front[i].id
                != front[j].id by {}
        }
        lemma_filter_unique_ids(front, pred);
        // What is kept from the front stands in the front, before the last.
        lemma_filter_members(front, pred);
        if pred(ws.last()) {
            let out = front.filter(pred).push(ws.last());
            assert forall|i: int, j: int| 0 <= i < j < out.len() implies out[i].id
                != out[j].id by {}
        }
    }
}

/// The groups that windows with unique identities open are pairwise different.
pub proof fn lemma_grouped_distinct(ws: Seq<ToplevelView>, n: int)
    requires
        unique_ids(ws),
        0 <= n <= ws.len(),
    ensures
        grouped_upto(ws, n).no_duplicates(),
    decreases n,
{
    if n > 0 {
        let k = n - 1;
        lemma_grouped_distinct(ws, k);
        lemma_groups_are_led(ws, k);
        let prev = grouped_upto(ws, k);
        if leads(ws, k) {
            let g = group_led_by(ws, k);
            assert forall|a: int| 0 <= a < prev.len() implies prev[a] != g by {
                let i = choose|i: int|
                    0 <= i < k && leads(ws, i) && prev[a] == group_led_by(ws, i);
                if group_app(prev[a]) == group_app(g) {
                    // Two leaders of one application: the application is
                    // unknown, and each group holds its own window only.
                    assert(seq![ws[i].id][0] != seq![ws[k].id][0]);
                }
            }
            let out = prev.push(g);
            assert forall|i: int, j: int| 0 <= i < out.len() && 0 <= j < out.len() && i
                != j implies out[i] != out[j] by {}
        }
    }
}

/// The display groups of windows with unique identities are pairwise different.
pub proof fn lemma_aggregated_distinct(ws: Seq<ToplevelView>, individually: bool, max_len: int)
    requires
        unique_ids(ws),
    ensures
        aggregated(ws, individually, max_len).no_duplicates(),
{
    if individually {
        let gs = ungrouped(ws, max_len);
        assert forall|i: int, j: int| 0 <= i < gs.len() && 0 <= j < gs.len() && i
            != j implies gs[i] != gs[j] by {}
    } else {
        lemma_grouped_distinct(ws, ws.len() as int);
    }
}

/// What a pinned application shows are items of its own, pairwise different
/// while the groups are.
pub proof fn lemma_items_for_distinct(gs: Seq<GroupView>, app: Seq<char>)
    requires
        gs.no_duplicates(),
    ensures
        items_for(gs, app).no_duplicates(),
        forall|k: int| 0 <= k < items_for(gs, app).len() ==> shows(app)(
            #[trigger] items_for(gs, app)[k],
        ),
{
    lemma_filter_no_duplicates(gs, claimed_by(app));
    let items = items_for(gs, app);
    assert forall|k: int| 0 <= k < items.len() implies shows(app)(#[trigger] items[k]) by {}
    assert forall|i: int, j: int| 0 <= i < items.len() && 0 <= j < items.len() && i
        != j implies items[i] != items[j] by {}
}

/// What the pinned applications show holds no item twice, and each of its
/// items is an item of one of them.
pub proof fn lemma_pinned_section_members(gs: Seq<GroupView>, favs: Seq<Seq<char>>)
    requires
        gs.no_duplicates(),
        favs.no_duplicates(),
    ensures
        pinned_section(gs, favs).no_duplicates(),
        forall|k: int|
            0 <= k < pinned_section(gs, favs).len() ==> exists|i: int|
                0 <= i < favs.len() && shows(favs[i])(#[trigger] pinned_section(gs, favs)[k]),
    decreases favs.len(),
{
    if favs.len() > 0 {
        let front = favs.drop_last();
        let last = favs.last();
        assert(front.push(last) =~= favs);
        lemma_pinned_section_members(gs, front);
        lemma_items_for_distinct(gs, last);
        front.lemma_flat_map_push(items_among(gs), last);
        let before = pinned_section(gs, front);
        let own = items_for(gs, last);
        let all = pinned_section(gs, favs);
        // An item shows one application only, and `last` is not in `front`.
        assert forall|a: int, b: int| 0 <= a < before.len() && 0 <= b < own.len() implies before[a]
            != own[b] by {}
        assert forall|k: int| 0 <= k < all.len() implies exists|i: int|
            0 <= i < favs.len() && shows(favs[i])(#[trigger] all[k]) by {}
    }
}

/// The dock lists no item twice while the groups are pairwise different and
/// no application is pinned twice.
pub proof fn lemma_display_list_distinct(gs: Seq<GroupView>, favs: Seq<Seq<char>>)
    requires
        gs.no_duplicates(),
        favs.no_duplicates(),
    ensures
        display_list(gs, favs).no_duplicates(),
{
    lemma_pinned_section_members(gs, favs);
    lemma_filter_no_duplicates(gs, unclaimed(favs));
    let head = pinned_section(gs, favs);
    let tail = unpinned_section(gs, favs);
    assert forall|i: int, j: int| 0 <= i < tail.len() && 0 <= j < tail.len() && i
        != j implies tail[i] != tail[j] by {}
    // An item of a pinned application is not among the unclaimed groups.
    assert forall|a: int, b: int| 0 <= a < head.len() && 0 <= b < tail.len() implies head[a]
        != tail[b] by {}
}

/// The dock computed from windows with unique identities and favorites
/// without duplicates lists no item twice.
pub proof fn lemma_dock_distinct(
    ws: Seq<ToplevelView>,
    favs: Seq<Seq<char>>,
    individually: bool,
    max_len: int,
)
    requires
        unique_ids(ws),
        favs.no_duplicates(),
    ensures
        display_list(aggregated(ws, individually, max_len), favs).no_duplicates(),
{
    lemma_aggregated_distinct(ws, individually, max_len);
    lemma_display_list_distinct(aggregated(ws, individually, max_len), favs);
}

} // verus!
