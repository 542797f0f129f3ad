//! The ordered list of items that the dock displays.
//!
//! The pinned applications come first, in the order of the favorites. Each
//! shows its display groups, or a placeholder where it has none. The groups of
//! applications that are not pinned follow, in appearance order.

use vstd::prelude::*;
use crate::aggregate::{DisplayGroup, GroupView, group_app, group_views};
use crate::favorites::FavoritesList;

verus! {

/// One entry of the dock.
#[derive(Debug, Clone, PartialEq, Eq)]
pub enum DisplayItem {
    /// The icon of a pinned application that has no visible window.
    Placeholder { app_id: String },
    /// An application with its windows, or a single window.
    Group(DisplayGroup),
}

/// An entry of the dock, with names as character sequences.
pub enum ItemView {
    Placeholder { app_id: Seq<char> },
    Group(GroupView),
}

impl View for DisplayItem {
    type V = ItemView;

    open spec fn view(&self) -> ItemView {
        match self {
            DisplayItem::Placeholder { app_id } => ItemView::Placeholder { app_id: app_id@ },
            DisplayItem::Group(g) => ItemView::Group(g@),
        }
    }
}

/// The views of a list of items, in order.
pub open spec fn item_views(v: Seq<DisplayItem>) -> Seq<ItemView> {
    v.map_values(|it: DisplayItem| it@)
}

/// Whether group `g` shows windows of the pinned application `app`. A group
/// of an unknown application belongs to no pinned application.
pub open spec fn claims(app: Seq<char>, g: GroupView) -> bool {
    app.len() > 0 && group_app(g) == app
}

/// The test for the groups of the pinned application `app`.
pub open spec fn claimed_by(app: Seq<char>) -> spec_fn(GroupView) -> bool {
    |g: GroupView| claims(app, g)
}

/// The test for the groups that no application of `favs` claims.
pub open spec fn unclaimed(favs: Seq<Seq<char>>) -> spec_fn(GroupView) -> bool {
    |g: GroupView| !(group_app(g).len() > 0 && favs.contains(group_app(g)))
}

/// The groups `gs` as items.
pub open spec fn as_items(gs: Seq<GroupView>) -> Seq<ItemView> {
    gs.map_values(|g: GroupView| ItemView::Group(g))
}

/// What the pinned application `app` shows: its groups among `gs`, or one
/// placeholder where it has none.
pub open spec fn items_for(gs: Seq<GroupView>, app: Seq<char>) -> Seq<ItemView> {
    let own = gs.filter(claimed_by(app));
    if own.len() == 0 {
        seq![ItemView::Placeholder { app_id: app }]
    } else {
        as_items(own)
    }
}

/// `items_for` over the groups `gs`, as a function of the application.
pub open spec fn items_among(gs: Seq<GroupView>) -> spec_fn(Seq<char>) -> Seq<ItemView> {
    |app: Seq<char>| items_for(gs, app)
}

/// What the pinned applications `favs` show, in their order.
pub open spec fn pinned_section(gs: Seq<GroupView>, favs: Seq<Seq<char>>) -> Seq<ItemView> {
    favs.flat_map(items_among(gs))
}

/// The groups of applications that are not pinned, in their order.
pub open spec fn unpinned_section(gs: Seq<GroupView>, favs: Seq<Seq<char>>) -> Seq<ItemView> {
    as_items(gs.filter(unclaimed(favs)))
}

/// The dock's items for the groups `gs` and the favorites `favs`.
pub open spec fn display_list(gs: Seq<GroupView>, favs: Seq<Seq<char>>) -> Seq<ItemView> {
    pinned_section(gs, favs) + unpinned_section(gs, favs)
}

/// The groups of `groups` that the pinned application `app` claims, as items.
pub fn claimed_items(groups: &Vec<DisplayGroup>, app: &String) -> (res: Vec<DisplayItem>)
    ensures
        item_views(res@) == as_items(group_views(groups@).filter(claimed_by(app@))),
{
    let ghost gs = group_views(groups@);
    let n: usize = groups.len();
    let mut out: Vec<DisplayItem> = Vec::new();
    if app.as_str().is_empty() {
        proof {
            gs.lemma_all_neg_filter_empty(claimed_by(app@));
        }
        return out;
    }
    let mut i: usize = 0;
    while i < n
        invariant
            n == groups@.len(),
            gs == group_views(groups@),
            app@.len() > 0,
            i <= n,
            item_views(out@) == as_items(gs.take(i as int).filter(claimed_by(app@))),
        decreases n - i,
    {
        proof {
            assert(gs.take(i as int + 1) =~= gs.take(i as int).push(gs[i as int]));
            gs.take(i as int).lemma_filter_push(gs[i as int], claimed_by(app@));
        }
        if *groups[i].app_id() == *app {
            let ghost before = out@;
            out.push(DisplayItem::Group(groups[i].duplicate()));
            assert(item_views(out@) =~= item_views(before).push(ItemView::Group(gs[i as int])));
            assert(item_views(out@) =~= as_items(
                gs.take(i as int + 1).filter(claimed_by(app@)),
            ));
        }
        i = i + 1;
    }
    assert(gs.take(n as int) =~= gs);
    out
}

/// The groups of `groups` that no pinned application claims, as items.
pub fn unclaimed_items(groups: &Vec<DisplayGroup>, favorites: &FavoritesList) -> (res: Vec<
    DisplayItem,
>)
    ensures
        item_views(res@) == unpinned_section(group_views(groups@), favorites@),
{
    let ghost gs = group_views(groups@);
    let ghost favs = favorites@;
    let n: usize = groups.len();
    let mut out: Vec<DisplayItem> = Vec::new();
    let mut i: usize = 0;
    while i < n
        invariant
            n == groups@.len(),
            gs == group_views(groups@),
            favs == favorites@,
            i <= n,
            item_views(out@) == as_items(gs.take(i as int).filter(unclaimed(favs))),
        decreases n - i,
    {
        proof {
            assert(gs.take(i as int + 1) =~= gs.take(i as int).push(gs[i as int]));
            gs.take(i as int).lemma_filter_push(gs[i as int], unclaimed(favs));
        }
        let app = groups[i].app_id();
        let claimed = !app.as_str().is_empty() && favorites.contains(app);
        if !claimed {
            let ghost before = out@;
            out.push(DisplayItem::Group(groups[i].duplicate()));
            assert(item_views(out@) =~= item_views(before).push(ItemView::Group(gs[i as int])));
        }
        i = i + 1;
    }
    assert(gs.take(n as int) =~= gs);
    out
}

/// Merges the display groups with the favorites into the dock's items.
pub fn build_display_list(groups: &Vec<DisplayGroup>, favorites: &FavoritesList) -> (res: Vec<
    DisplayItem,
>)
    ensures
        item_views(res@) == display_list(group_views(groups@), favorites@),
{
    let ghost gs = group_views(groups@);
    let ghost favs = favorites@;
    let n: usize = favorites.len();
    let mut out: Vec<DisplayItem> = Vec::new();
    let mut i: usize = 0;
    assert(item_views(out@) =~= pinned_section(gs, favs.take(0)));
    while i < n
        invariant
            n == favs.len(),
            gs == group_views(groups@),
            favs == favorites@,
            i <= n,
            item_views(out@) == pinned_section(gs, favs.take(i as int)),
        decreases n - i,
    {
        let app = favorites.get(i);
        let mut own = claimed_items(groups, app);
        proof {
            favs.lemma_flat_map_take_append(items_among(gs), i as int);
        }
        let ghost before = out@;
        if own.len() == 0 {
            out.push(DisplayItem::Placeholder { app_id: app.clone() });
        } else {
            let ghost added = own@;
            out.append(&mut own);
            assert(item_views(out@) =~= item_views(before) + item_views(added));
        }
        i = i + 1;
    }
    assert(favs.take(n as int) =~= favs);
    let mut rest = unclaimed_items(groups, favorites);
    out.append(&mut rest);
    out
}

} // verus!
