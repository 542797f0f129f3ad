//! The order of what is displayed is stable.
//!
//! Items stand in the order in which their windows first appeared. A new
//! window and a change to a window leave every group in its place. Closing a
//! window takes its item away, or takes the window out of its group; the
//! groups of other applications stay as they are, in the order they had.

use vstd::prelude::*;
use crate::aggregate::{
    group_app, group_led_by, grouped, grouped_upto, leads, member_ids, of_app, ungrouped,
    GroupView,
};
use crate::seqs::lemma_filter_none;
use crate::window::{unique_ids, ToplevelView};

verus! {

/// The group that a window of an unknown application forms by itself.
pub open spec fn lone_group(w: ToplevelView) -> GroupView {
    GroupView::Application { app_id: w.app_id, title: w.title, windows: seq![w.id] }
}

/// The test for the groups that closing window `w` cannot touch: the groups
/// of other applications and, where the application of `w` is unknown, every
/// group but the one that `w` forms by itself.
pub open spec fn untouched_by(w: ToplevelView) -> spec_fn(GroupView) -> bool {
    |g: GroupView|
        if w.app_id.len() > 0 {
            group_app(g) != w.app_id
        } else {
            g != lone_group(w)
        }
}

/// Listed one by one, closing a window removes its item and nothing else.
pub proof fn lemma_ungrouped_after_close(ws: Seq<ToplevelView>, p: int, max_len: int)
    requires
        0 <= p < ws.len(),
    ensures
        ungrouped(ws.remove(p), max_len) == ungrouped(ws, max_len).remove(p),
{
}

/// Taking out a window of another application leaves the members of an
/// application as they were.
pub proof fn lemma_members_after_close(ws: Seq<ToplevelView>, p: int, app: Seq<char>)
    requires
        0 <= p < ws.len(),
        ws[p].app_id != app,
    ensures
        member_ids(ws.remove(p), app) == member_ids(ws, app),
{
    let head = ws.take(p);
    let tail = ws.skip(p + 1);
    let one = seq![ws[p]];
    assert(ws =~= head + one + tail);
    assert forall|i: int| 0 <= i < one.len() implies !of_app(app)(#[trigger] one[i]) by {}
    lemma_filter_none(one, of_app(app));
}

/// The position in `ws` of the window that stands at `k` once the window at
/// `p` is taken out.
pub open spec fn position_before(p: int, k: int) -> int {
    if k < p {
        k
    } else {
        k + 1
    }
}

/// A window of another group opens a group after the window at `p` is taken
/// out exactly if it did before, and the group is the same.
proof fn lemma_leader_after_close(ws: Seq<ToplevelView>, p: int, k: int)
    requires
        unique_ids(ws),
        0 <= p < ws.len(),
        0 <= k < ws.len() - 1,
        untouched_by(ws[p])(group_led_by(ws, position_before(p, k))),
    ensures
        leads(ws.remove(p), k) == leads(ws, position_before(p, k)),
        group_led_by(ws.remove(p), k) == group_led_by(ws, position_before(p, k)),
{
    let after = ws.remove(p);
    let k0 = position_before(p, k);
    let app = ws[k0].app_id;
    if app.len() > 0 {
        lemma_members_after_close(ws, p, app);
        if leads(ws, k0) {
            assert forall|j: int| 0 <= j < k implies after[j].app_id != after[k].app_id by {}
        }
        if leads(after, k) {
            assert forall|j: int| 0 <= j < k0 implies ws[j].app_id != ws[k0].app_id by {
                if j < p {
                    assert(ws[j] == after[j]);
                } else if j > p {
                    assert(ws[j] == after[j - 1]);
                }
            }
        }
    }
}

/// The groups opened by the first windows, apart from those that closing the
/// window at `p` can touch, are the same before and after.
proof fn lemma_groups_after_close_upto(ws: Seq<ToplevelView>, p: int, n: int)
    requires
        unique_ids(ws),
        0 <= p < ws.len(),
        0 <= n <= ws.len() - 1,
    ensures
        grouped_upto(ws.remove(p), n).filter(untouched_by(ws[p])) == grouped_upto(
            ws,
            if n <= p {
                n
            } else {
                n + 1
            },
        ).filter(untouched_by(ws[p])),
    decreases n,
{
    let after = ws.remove(p);
    let keep = untouched_by(ws[p]);
    if n > 0 {
        let k = n - 1;
        let k0 = position_before(p, k);
        lemma_groups_after_close_upto(ws, p, k);
        // The group that the closed window opened, if any, is not kept.
        let reached = if k <= p { k } else { k + 1 };
        assert(grouped_upto(ws, k0).filter(keep) == grouped_upto(ws, reached).filter(keep)) by {
            if k == p {
                grouped_upto(ws, p).lemma_filter_push(group_led_by(ws, p), keep);
            }
        }
        let g = group_led_by(ws, k0);
        grouped_upto(ws, k0).lemma_filter_push(g, keep);
        grouped_upto(after, k).lemma_filter_push(group_led_by(after, k), keep);
        // A group that is not kept is one of the closed window's application,
        // before and after; a group that is kept is the same before and after.
        if keep(g) {
            lemma_leader_after_close(ws, p, k);
        }
    }
}

/// The applications of the groups `gs`, in order.
pub open spec fn group_apps(gs: Seq<GroupView>) -> Seq<Seq<char>> {
    gs.map_values(|g: GroupView| group_app(g))
}

/// Which applications have a group, and in which order, depends only on the
/// applications of the windows, in their order.
pub proof fn lemma_group_apps_by_applications(a: Seq<ToplevelView>, b: Seq<ToplevelView>, n: int)
    requires
        0 <= n <= a.len(),
        n <= b.len(),
        forall|i: int| 0 <= i < n ==> (#[trigger] a[i]).app_id == b[i].app_id,
    ensures
        group_apps(grouped_upto(a, n)) == group_apps(grouped_upto(b, n)),
    decreases n,
{
    if n > 0 {
        let k = n - 1;
        lemma_group_apps_by_applications(a, b, k);
        assert(leads(a, k) == leads(b, k)) by {
            if leads(a, k) && a[k].app_id.len() > 0 {
                assert forall|j: int| 0 <= j < k implies b[j].app_id != b[k].app_id by {
                    assert(a[j].app_id != a[k].app_id);
                }
            }
            if leads(b, k) && b[k].app_id.len() > 0 {
                assert forall|j: int| 0 <= j < k implies a[j].app_id != a[k].app_id by {
                    assert(b[j].app_id != b[k].app_id);
                }
            }
        }
        if leads(a, k) {
            assert(group_apps(grouped_upto(a, n)) =~= group_apps(grouped_upto(a, k)).push(
                a[k].app_id,
            ));
            assert(group_apps(grouped_upto(b, n)) =~= group_apps(grouped_upto(b, k)).push(
                b[k].app_id,
            ));
        }
    }
}

/// Grouped, a change to a window that keeps its application leaves every
/// group in its place.
pub proof fn lemma_groups_after_update(ws: Seq<ToplevelView>, p: int, w: ToplevelView)
    requires
        0 <= p < ws.len(),
        w.app_id == ws[p].app_id,
    ensures
        group_apps(grouped(ws.update(p, w))) == group_apps(grouped(ws)),
{
    lemma_group_apps_by_applications(ws.update(p, w), ws, ws.len() as int);
}

/// Grouped, a new window leaves every group in its place: it joins the group
/// of its application, or opens a group behind all others.
pub proof fn lemma_groups_after_open(ws: Seq<ToplevelView>, w: ToplevelView)
    ensures
        group_apps(grouped(ws.push(w))) == if leads(ws.push(w), ws.len() as int) {
            group_apps(grouped(ws)).push(w.app_id)
        } else {
            group_apps(grouped(ws))
        },
{
    let after = ws.push(w);
    lemma_group_apps_by_applications(after, ws, ws.len() as int);
    if leads(after, ws.len() as int) {
        assert(group_apps(grouped(after)) =~= group_apps(grouped_upto(after, ws.len() as int)).push(
            w.app_id,
        ));
    }
}

/// Grouped, closing a window leaves the groups of the other applications as
/// they were, in the order they had. Where the window's application is
/// unknown, that is every group but the window's own.
pub proof fn lemma_groups_after_close(ws: Seq<ToplevelView>, p: int)
    requires
        unique_ids(ws),
        0 <= p < ws.len(),
    ensures
        grouped(ws.remove(p)).filter(untouched_by(ws[p])) == grouped(ws).filter(
            untouched_by(ws[p]),
        ),
{
    let n = ws.len() - 1;
    lemma_groups_after_close_upto(ws, p, n);
    if n <= p {
        grouped_upto(ws, p).lemma_filter_push(group_led_by(ws, p), untouched_by(ws[p]));
    }
}

} // verus!
