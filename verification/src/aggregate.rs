//! Classifying the visible windows into display groups.
//!
//! Grouped, the windows of one application form one group. The group stands
//! where its first window stands, and shows that window's title. A window
//! whose application is unknown is never merged with another: it forms a group
//! by itself. Ungrouped, every window is an item of its own, with its title
//! shortened for display.

use vstd::prelude::*;
use crate::seqs::lemma_filter_all;
use crate::title::{truncate_title, truncated};
use crate::window::{Toplevel, ToplevelView, window_views};

verus! {

/// What the dock shows for windows: an application with all its windows, or
/// one window.
#[derive(Debug, Clone, PartialEq, Eq)]
pub enum DisplayGroup {
    /// The windows of one application, in appearance order.
    Application { app_id: String, title: String, windows: Vec<u64> },
    /// A single window.
    Window { id: u64, app_id: String, title: String },
}

/// A display group, with names as character sequences.
pub enum GroupView {
    Application { app_id: Seq<char>, title: Seq<char>, windows: Seq<u64> },
    Window { id: u64, app_id: Seq<char>, title: Seq<char> },
}

impl View for DisplayGroup {
    type V = GroupView;

    open spec fn view(&self) -> GroupView {
        match self {
            DisplayGroup::Application { app_id, title, windows } => GroupView::Application {
                app_id: app_id@,
                title: title@,
                windows: windows@,
            },
            DisplayGroup::Window { id, app_id, title } => GroupView::Window {
                id: *id,
                app_id: app_id@,
                title: title@,
            },
        }
    }
}

/// The views of a list of groups, in order.
pub open spec fn group_views(v: Seq<DisplayGroup>) -> Seq<GroupView> {
    v.map_values(|g: DisplayGroup| g@)
}

/// The application that a group belongs to.
pub open spec fn group_app(g: GroupView) -> Seq<char> {
    match g {
        GroupView::Application { app_id, .. } => app_id,
        GroupView::Window { app_id, .. } => app_id,
    }
}

/// The test for the windows of application `app`.
pub open spec fn of_app(app: Seq<char>) -> spec_fn(ToplevelView) -> bool {
    |w: ToplevelView| w.app_id == app
}

/// The identities of the windows `ws`, in order.
pub open spec fn window_ids(ws: Seq<ToplevelView>) -> Seq<u64> {
    ws.map_values(|w: ToplevelView| w.id)
}

/// The identities of the windows of application `app` among `ws`, in order.
pub open spec fn member_ids(ws: Seq<ToplevelView>, app: Seq<char>) -> Seq<u64> {
    window_ids(ws.filter(of_app(app)))
}

/// Whether the window at position `i` opens a group: its application is
/// unknown, or no earlier window belongs to the same application.
pub open spec fn leads(ws: Seq<ToplevelView>, i: int) -> bool {
    ws[i].app_id.len() == 0 || forall|j: int| 0 <= j < i ==> ws[j].app_id != ws[i].app_id
}

/// The group that the window at position `i` opens. It carries that window's
/// title. Its members are all windows of the application, or the window alone
/// where the application is unknown.
pub open spec fn group_led_by(ws: Seq<ToplevelView>, i: int) -> GroupView {
    GroupView::Application {
        app_id: ws[i].app_id,
        title: ws[i].title,
        windows: if ws[i].app_id.len() == 0 {
            seq![ws[i].id]
        } else {
            member_ids(ws, ws[i].app_id)
        },
    }
}

/// The groups opened by the first `n` windows of `ws`, in order.
pub open spec fn grouped_upto(ws: Seq<ToplevelView>, n: int) -> Seq<GroupView>
    decreases n,
{
    if n <= 0 {
        Seq::empty()
    } else if leads(ws, n - 1) {
        grouped_upto(ws, n - 1).push(group_led_by(ws, n - 1))
    } else {
        grouped_upto(ws, n - 1)
    }
}

/// The windows `ws` by application: one group per known application and one
/// per window of an unknown one, in order of first appearance.
pub open spec fn grouped(ws: Seq<ToplevelView>) -> Seq<GroupView> {
    grouped_upto(ws, ws.len() as int)
}

/// The item that shows window `w` by itself within `max_len` characters.
pub open spec fn window_item(w: ToplevelView, max_len: int) -> GroupView {
    GroupView::Window { id: w.id, app_id: w.app_id, title: truncated(w.title, max_len) }
}

/// The windows `ws` one by one.
pub open spec fn ungrouped(ws: Seq<ToplevelView>, max_len: int) -> Seq<GroupView> {
    ws.map_values(|w: ToplevelView| window_item(w, max_len))
}

/// The display groups of the windows `ws`.
pub open spec fn aggregated(ws: Seq<ToplevelView>, individually: bool, max_len: int) -> Seq<
    GroupView,
> {
    if individually {
        ungrouped(ws, max_len)
    } else {
        grouped(ws)
    }
}

/// Every group of `grouped_upto` is the group that one of the first `n`
/// windows opens, and that window does open a group.
pub proof fn lemma_groups_are_led(ws: Seq<ToplevelView>, n: int)
    requires
        0 <= n <= ws.len(),
    ensures
        grouped_upto(ws, n).len() <= n,
        forall|k: int|
            0 <= k < grouped_upto(ws, n).len() ==> exists|i: int|
                0 <= i < n && leads(ws, i) && #[trigger] grouped_upto(ws, n)[k] == group_led_by(
                    ws,
                    i,
                ),
    decreases n,
{
    if n > 0 {
        lemma_groups_are_led(ws, n - 1);
        let prev = grouped_upto(ws, n - 1);
        let cur = grouped_upto(ws, n);
        assert forall|k: int| 0 <= k < cur.len() implies exists|i: int|
            0 <= i < n && leads(ws, i) && #[trigger] cur[k] == group_led_by(ws, i) by {
            if k < prev.len() {
                // An earlier group keeps the window that opened it.
                let i = choose|i: int|
                    0 <= i < n - 1 && leads(ws, i) && prev[k] == group_led_by(ws, i);
                assert(cur[k] == group_led_by(ws, i));
            }
        }
    }
}

/// Windows that all belong to one known application form exactly one group,
/// which holds every one of them in order and shows the first one's title.
/// Listed one by one, the same windows give one item each.
pub proof fn lemma_one_application(ws: Seq<ToplevelView>, app: Seq<char>, max_len: int)
    requires
        ws.len() > 0,
        app.len() > 0,
        forall|i: int| 0 <= i < ws.len() ==> (#[trigger] ws[i]).app_id == app,
    ensures
        grouped(ws) == seq![
            GroupView::Application { app_id: app, title: ws[0].title, windows: window_ids(ws) },
        ],
        ungrouped(ws, max_len).len() == ws.len(),
        forall|i: int|
            0 <= i < ws.len() ==> #[trigger] ungrouped(ws, max_len)[i] == window_item(
                ws[i],
                max_len,
            ),
{
    assert forall|i: int| 0 <= i < ws.len() implies of_app(app)(#[trigger] ws[i]) by {}
    lemma_filter_all(ws, of_app(app));
    lemma_single_leader(ws, app, ws.len() as int);
}

/// Among windows of one known application, only the first opens a group.
proof fn lemma_single_leader(ws: Seq<ToplevelView>, app: Seq<char>, n: int)
    requires
        1 <= n <= ws.len(),
        app.len() > 0,
        forall|i: int| 0 <= i < ws.len() ==> (#[trigger] ws[i]).app_id == app,
    ensures
        grouped_upto(ws, n) == seq![group_led_by(ws, 0)],
    decreases n,
{
    if n == 1 {
        assert(grouped_upto(ws, 0) =~= Seq::<GroupView>::empty());
    } else {
        lemma_single_leader(ws, app, n - 1);
    }
}

impl DisplayGroup {
    /// A copy of this group.
    pub fn duplicate(&self) -> (res: DisplayGroup)
        ensures
            res@ == self@,
    {
        match self {
            DisplayGroup::Application { app_id, title, windows } => {
                let n: usize = windows.len();
                let mut ids: Vec<u64> = Vec::new();
                let mut i: usize = 0;
                while i < n
                    invariant
                        n == windows@.len(),
                        i <= n,
                        ids@ == windows@.take(i as int),
                    decreases n - i,
                {
                    ids.push(windows[i]);
                    assert(windows@.take(i as int + 1) =~= windows@.take(i as int).push(
                        windows@[i as int],
                    ));
                    i = i + 1;
                }
                assert(windows@.take(n as int) =~= windows@);
                DisplayGroup::Application {
                    app_id: app_id.clone(),
                    title: title.clone(),
                    windows: ids,
                }
            },
            DisplayGroup::Window { id, app_id, title } => DisplayGroup::Window {
                id: *id,
                app_id: app_id.clone(),
                title: title.clone(),
            },
        }
    }

    /// The application that this group belongs to.
    pub fn app_id(&self) -> (res: &String)
        ensures
            res@ == group_app(self@),
    {
        match self {
            DisplayGroup::Application { app_id, .. } => app_id,
            DisplayGroup::Window { app_id, .. } => app_id,
        }
    }
}

/// The identities of the windows of application `app` among `windows`.
pub fn members_of(windows: &Vec<Toplevel>, app: &String) -> (res: Vec<u64>)
    ensures
        res@ == member_ids(window_views(windows@), app@),
{
    let ghost ws = window_views(windows@);
    let n: usize = windows.len();
    let mut ids: Vec<u64> = Vec::new();
    let mut i: usize = 0;
    while i < n
        invariant
            n == windows@.len(),
            ws == window_views(windows@),
            i <= n,
            ids@ == member_ids(ws.take(i as int), app@),
        decreases n - i,
    {
        proof {
            assert(ws.take(i as int + 1) =~= ws.take(i as int).push(ws[i as int]));
            ws.take(i as int).lemma_filter_push(ws[i as int], of_app(app@));
        }
        if windows[i].app_id == *app {
            ids.push(windows[i].id);
        }
        i = i + 1;
    }
    assert(ws.take(n as int) =~= ws);
    ids
}

/// Whether the window at position `i` opens a group.
pub fn opens_group(windows: &Vec<Toplevel>, i: usize) -> (res: bool)
    requires
        i < windows@.len(),
    ensures
        res == leads(window_views(windows@), i as int),
{
    let ghost ws = window_views(windows@);
    if windows[i].app_id.as_str().is_empty() {
        return true;
    }
    let mut j: usize = 0;
    while j < i
        invariant
            i < windows@.len(),
            ws == window_views(windows@),
            j <= i,
            ws[i as int].app_id.len() > 0,
            forall|k: int| 0 <= k < j ==> ws[k].app_id != ws[i as int].app_id,
        decreases i - j,
    {
        if windows[j].app_id == windows[i].app_id {
            assert(ws[j as int].app_id == ws[i as int].app_id);
            return false;
        }
        j = j + 1;
    }
    true
}

/// Groups `windows` by application.
pub fn aggregate_grouped(windows: &Vec<Toplevel>) -> (res: Vec<DisplayGroup>)
    ensures
        group_views(res@) == grouped(window_views(windows@)),
{
    let ghost ws = window_views(windows@);
    let n: usize = windows.len();
    let mut out: Vec<DisplayGroup> = Vec::new();
    let mut i: usize = 0;
    while i < n
        invariant
            n == windows@.len(),
            ws == window_views(windows@),
            i <= n,
            group_views(out@) == grouped_upto(ws, i as int),
        decreases n - i,
    {
        if opens_group(windows, i) {
            let w = &windows[i];
            let ids = if w.app_id.as_str().is_empty() {
                let mut own: Vec<u64> = Vec::new();
                own.push(w.id);
                own
            } else {
                members_of(windows, &w.app_id)
            };
            let group = DisplayGroup::Application {
                app_id: w.app_id.clone(),
                title: w.title.clone(),
                windows: ids,
            };
            out.push(group);
        }
        i = i + 1;
    }
    out
}

/// Lists `windows` one by one, each title within `max_title_len` characters.
pub fn aggregate_ungrouped(windows: &Vec<Toplevel>, max_title_len: usize) -> (res: Vec<
    DisplayGroup,
>)
    requires
        max_title_len >= 3,
    ensures
        group_views(res@) == ungrouped(window_views(windows@), max_title_len as int),
{
    let ghost ws = window_views(windows@);
    let n: usize = windows.len();
    let mut out: Vec<DisplayGroup> = Vec::new();
    let mut i: usize = 0;
    while i < n
        invariant
            max_title_len >= 3,
            n == windows@.len(),
            ws == window_views(windows@),
            i <= n,
            out@.len() == i,
            forall|k: int| 0 <= k < i ==> out@[k]@ == window_item(ws[k], max_title_len as int),
        decreases n - i,
    {
        let w = &windows[i];
        let item = DisplayGroup::Window {
            id: w.id,
            app_id: w.app_id.clone(),
            title: truncate_title(w.title.as_str(), max_title_len),
        };
        out.push(item);
        i = i + 1;
    }
    out
}

/// The display groups of `windows`: one item per window where `individually`
/// is set, else one group per application.
pub fn aggregate(windows: &Vec<Toplevel>, individually: bool, max_title_len: usize) -> (res: Vec<
    DisplayGroup,
>)
    requires
        individually ==> max_title_len >= 3,
    ensures
        group_views(res@) == aggregated(
            window_views(windows@),
            individually,
            max_title_len as int,
        ),
{
    if individually {
        aggregate_ungrouped(windows, max_title_len)
    } else {
        aggregate_grouped(windows)
    }
}

} // verus!
