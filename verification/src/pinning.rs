//! How pinned applications appear in the dock.
//!
//! A pinned application always shows in the dock: as a placeholder while none
//! of its windows is visible, and as its windows once there are some. The two
//! never stand side by side.

use vstd::prelude::*;
use crate::aggregate::{
    aggregated, group_led_by, grouped, grouped_upto, lemma_groups_are_led, member_ids, ungrouped,
    window_item, GroupView,
};
use crate::display::{
    as_items, claimed_by, claims, display_list, items_among, items_for, pinned_section, unclaimed,
    unpinned_section, ItemView,
};
use crate::seqs::{lemma_filter_all, lemma_filter_members, lemma_filter_none};
use crate::window::ToplevelView;

verus! {

/// The test for the windows that count for the pinned application `app`:
/// those of a known application with that identifier.
pub open spec fn matching(app: Seq<char>) -> spec_fn(ToplevelView) -> bool {
    |w: ToplevelView| app.len() > 0 && w.app_id == app
}

/// The test for the items that show the application `app`: its placeholder,
/// and the groups that it claims.
pub open spec fn shows(app: Seq<char>) -> spec_fn(ItemView) -> bool {
    |it: ItemView|
        match it {
            ItemView::Placeholder { app_id } => app_id == app,
            ItemView::Group(g) => claims(app, g),
        }
}

/// Whether an item is a placeholder.
pub open spec fn is_placeholder() -> spec_fn(ItemView) -> bool {
    |it: ItemView| it is Placeholder
}

/// Listed one by one, the windows that an application claims are the items of
/// its matching windows.
pub proof fn lemma_ungrouped_claimed(ws: Seq<ToplevelView>, app: Seq<char>, max_len: int)
    ensures
        ungrouped(ws, max_len).filter(claimed_by(app)) == ungrouped(
            ws.filter(matching(app)),
            max_len,
        ),
    decreases ws.len(),
{
    reveal(Seq::filter);
    if ws.len() > 0 {
        let front = ws.drop_last();
        let last = ws.last();
        lemma_ungrouped_claimed(front, app, max_len);
        assert(ungrouped(ws, max_len) =~= ungrouped(front, max_len).push(
            window_item(last, max_len),
        ));
        ungrouped(front, max_len).lemma_filter_push(window_item(last, max_len), claimed_by(app));
        if matching(app)(last) {
            assert(ungrouped(front.filter(matching(app)).push(last), max_len) =~= ungrouped(
                front.filter(matching(app)),
                max_len,
            ).push(window_item(last, max_len)));
        }
    }
}

/// An application without a matching window claims no group, whether the
/// windows are grouped or listed one by one.
pub proof fn lemma_claims_nothing(
    ws: Seq<ToplevelView>,
    app: Seq<char>,
    individually: bool,
    max_len: int,
)
    requires
        ws.filter(matching(app)).len() == 0,
    ensures
        aggregated(ws, individually, max_len).filter(claimed_by(app)) == Seq::<GroupView>::empty(),
{
    if individually {
        lemma_ungrouped_claimed(ws, app, max_len);
    } else {
        let gs = grouped(ws);
        lemma_groups_are_led(ws, ws.len() as int);
        lemma_filter_members(ws, matching(app));
        assert forall|k: int| 0 <= k < gs.len() implies !claimed_by(app)(#[trigger] gs[k]) by {}
        lemma_filter_none(gs, claimed_by(app));
    }
}

/// Grouped, a known application whose first window stands at `first` claims
/// exactly the group that this window opens.
pub proof fn lemma_grouped_claimed(ws: Seq<ToplevelView>, app: Seq<char>, first: int, n: int)
    requires
        app.len() > 0,
        0 <= first < ws.len(),
        ws[first].app_id == app,
        forall|j: int| 0 <= j < first ==> (#[trigger] ws[j]).app_id != app,
        0 <= n <= ws.len(),
    ensures
        grouped_upto(ws, n).filter(claimed_by(app)) == if n <= first {
            Seq::<GroupView>::empty()
        } else {
            seq![group_led_by(ws, first)]
        },
    decreases n,
{
    if n > 0 {
        let k = n - 1;
        lemma_grouped_claimed(ws, app, first, k);
        let prev = grouped_upto(ws, k);
        let g = group_led_by(ws, k);
        prev.lemma_filter_push(g, claimed_by(app));
    }
}

/// What a pinned application shows passes the test for its own items, and
/// fails the test for the items of any other application.
pub proof fn lemma_items_for_shown(gs: Seq<GroupView>, app: Seq<char>, other: Seq<char>)
    ensures
        items_for(gs, app).filter(shows(app)) == items_for(gs, app),
        other != app ==> items_for(gs, other).filter(shows(app)) == Seq::<ItemView>::empty(),
{
    let own = items_for(gs, app);
    assert forall|i: int| 0 <= i < own.len() implies shows(app)(#[trigger] own[i]) by {}
    lemma_filter_all(own, shows(app));
    if other != app {
        let theirs = items_for(gs, other);
        assert forall|i: int| 0 <= i < theirs.len() implies !shows(app)(#[trigger] theirs[i]) by {}
        lemma_filter_none(theirs, shows(app));
    }
}

/// Among what the pinned applications show, the items of `app` are what
/// `app` itself shows where it is pinned, and none where it is not.
pub proof fn lemma_pinned_section_shows(gs: Seq<GroupView>, favs: Seq<Seq<char>>, app: Seq<char>)
    requires
        favs.no_duplicates(),
    ensures
        pinned_section(gs, favs).filter(shows(app)) == if favs.contains(app) {
            items_for(gs, app)
        } else {
            Seq::<ItemView>::empty()
        },
    decreases favs.len(),
{
    if favs.len() > 0 {
        let front = favs.drop_last();
        let last = favs.last();
        assert(front.push(last) =~= favs);
        lemma_pinned_section_shows(gs, front, app);
        front.lemma_flat_map_push(items_among(gs), last);
        Seq::filter_distributes_over_add(
            pinned_section(gs, front),
            items_for(gs, last),
            shows(app),
        );
        lemma_items_for_shown(gs, app, last);
        if last != app {
            assert(pinned_section(gs, front).filter(shows(app)) + Seq::<ItemView>::empty()
                =~= pinned_section(gs, front).filter(shows(app)));
        }
    }
}

/// Among the groups of applications that are not pinned, the items of `app`
/// are its groups where it is not pinned, and none where it is.
pub proof fn lemma_unpinned_section_shows(
    gs: Seq<GroupView>,
    favs: Seq<Seq<char>>,
    app: Seq<char>,
)
    ensures
        unpinned_section(gs, favs).filter(shows(app)) == if favs.contains(app) {
            Seq::<ItemView>::empty()
        } else {
            as_items(gs.filter(claimed_by(app)))
        },
    decreases gs.len(),
{
    reveal(Seq::filter);
    if gs.len() > 0 {
        let front = gs.drop_last();
        let g = gs.last();
        lemma_unpinned_section_shows(front, favs, app);
        let kept = front.filter(unclaimed(favs));
        if unclaimed(favs)(g) {
            assert(as_items(kept.push(g)) =~= as_items(kept).push(ItemView::Group(g)));
            as_items(kept).lemma_filter_push(ItemView::Group(g), shows(app));
            if claims(app, g) {
                assert(as_items(front.filter(claimed_by(app)).push(g)) =~= as_items(
                    front.filter(claimed_by(app)),
                ).push(ItemView::Group(g)));
            }
        }
    }
}

/// In the dock, the items of a pinned application are exactly what it shows:
/// its groups, or its placeholder where it has none.
pub proof fn lemma_pinned_shows_own_items(gs: Seq<GroupView>, favs: Seq<Seq<char>>, app: Seq<char>)
    requires
        favs.no_duplicates(),
        favs.contains(app),
    ensures
        display_list(gs, favs).filter(shows(app)) == items_for(gs, app),
{
    lemma_pinned_section_shows(gs, favs, app);
    lemma_unpinned_section_shows(gs, favs, app);
    Seq::filter_distributes_over_add(
        pinned_section(gs, favs),
        unpinned_section(gs, favs),
        shows(app),
    );
}

/// In the dock, the items of an application that is not pinned are exactly
/// its groups, and no placeholder.
pub proof fn lemma_unpinned_shows_groups(gs: Seq<GroupView>, favs: Seq<Seq<char>>, app: Seq<char>)
    requires
        favs.no_duplicates(),
        !favs.contains(app),
    ensures
        display_list(gs, favs).filter(shows(app)) == as_items(gs.filter(claimed_by(app))),
{
    lemma_pinned_section_shows(gs, favs, app);
    lemma_unpinned_section_shows(gs, favs, app);
    Seq::filter_distributes_over_add(
        pinned_section(gs, favs),
        unpinned_section(gs, favs),
        shows(app),
    );
    assert(Seq::<ItemView>::empty() + as_items(gs.filter(claimed_by(app))) =~= as_items(
        gs.filter(claimed_by(app)),
    ));
}

/// A pinned application without a visible matching window shows exactly one
/// item, its placeholder, whether windows are grouped or listed one by one.
pub proof fn lemma_placeholder_without_windows(
    ws: Seq<ToplevelView>,
    favs: Seq<Seq<char>>,
    app: Seq<char>,
    individually: bool,
    max_len: int,
)
    requires
        favs.no_duplicates(),
        favs.contains(app),
        ws.filter(matching(app)).len() == 0,
    ensures
        display_list(aggregated(ws, individually, max_len), favs).filter(shows(app)) == seq![
            ItemView::Placeholder { app_id: app },
        ],
{
    let gs = aggregated(ws, individually, max_len);
    lemma_claims_nothing(ws, app, individually, max_len);
    lemma_pinned_shows_own_items(gs, favs, app);
}

/// With windows listed one by one, a pinned application with visible matching
/// windows shows one item per such window, in their order, and no placeholder.
pub proof fn lemma_windows_replace_placeholder(
    ws: Seq<ToplevelView>,
    favs: Seq<Seq<char>>,
    app: Seq<char>,
    max_len: int,
)
    requires
        favs.no_duplicates(),
        favs.contains(app),
        ws.filter(matching(app)).len() >= 1,
    ensures
        display_list(ungrouped(ws, max_len), favs).filter(shows(app)) == as_items(
            ungrouped(ws.filter(matching(app)), max_len),
        ),
        display_list(ungrouped(ws, max_len), favs).filter(shows(app)).len() == ws.filter(
            matching(app),
        ).len(),
        display_list(ungrouped(ws, max_len), favs).filter(shows(app)).filter(is_placeholder())
            == Seq::<ItemView>::empty(),
{
    let gs = ungrouped(ws, max_len);
    lemma_ungrouped_claimed(ws, app, max_len);
    lemma_pinned_shows_own_items(gs, favs, app);
    let own = as_items(ungrouped(ws.filter(matching(app)), max_len));
    assert forall|i: int| 0 <= i < own.len() implies !is_placeholder()(#[trigger] own[i]) by {}
    lemma_filter_none(own, is_placeholder());
}

/// With windows grouped, a pinned application whose first visible window
/// stands at `first` shows exactly one item: the group of all its windows,
/// under that window's title.
pub proof fn lemma_group_replaces_placeholder(
    ws: Seq<ToplevelView>,
    favs: Seq<Seq<char>>,
    app: Seq<char>,
    first: int,
)
    requires
        favs.no_duplicates(),
        favs.contains(app),
        app.len() > 0,
        0 <= first < ws.len(),
        ws[first].app_id == app,
        forall|j: int| 0 <= j < first ==> (#[trigger] ws[j]).app_id != app,
    ensures
        display_list(grouped(ws), favs).filter(shows(app)) == seq![
            ItemView::Group(
                GroupView::Application {
                    app_id: app,
                    title: ws[first].title,
                    windows: member_ids(ws, app),
                },
            ),
        ],
{
    let gs = grouped(ws);
    lemma_grouped_claimed(ws, app, first, ws.len() as int);
    lemma_pinned_shows_own_items(gs, favs, app);
    assert(as_items(seq![group_led_by(ws, first)]) =~= seq![
        ItemView::Group(group_led_by(ws, first)),
    ]);
}

} // verus!
