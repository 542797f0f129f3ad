//! Open windows and the table that tracks them.
//!
//! The table keeps one entry per window identity, in the order in which the
//! identities first appeared. An update keeps a window's place and closing a
//! window leaves the order of the others as it was, so the order can serve as
//! the appearance order of what is displayed.

use vstd::prelude::*;
use crate::names::{clone_names, names, same_names};

verus! {

/// One open window as the compositor last described it.
#[derive(Debug, Clone)]
pub struct Toplevel {
    /// The window's identity, stable while the window lives.
    pub id: u64,
    /// The application the window belongs to; empty when unknown.
    pub app_id: String,
    /// The window's current title.
    pub title: String,
    /// The outputs the window is currently visible on, read as a set.
    pub outputs: Vec<String>,
    /// The workspace the window lives on, if it is tied to one.
    pub workspace: Option<u64>,
}

/// What a window is, with names as character sequences and the outputs as a set.
pub struct ToplevelView {
    pub id: u64,
    pub app_id: Seq<char>,
    pub title: Seq<char>,
    pub outputs: Set<Seq<char>>,
    pub workspace: Option<u64>,
}

impl View for Toplevel {
    type V = ToplevelView;

    open spec fn view(&self) -> ToplevelView {
        ToplevelView {
            id: self.id,
            app_id: self.app_id@,
            title: self.title@,
            outputs: names(self.outputs@).to_set(),
            workspace: self.workspace,
        }
    }
}

/// The views of a list of windows, in order.
pub open spec fn window_views(v: Seq<Toplevel>) -> Seq<ToplevelView> {
    v.map_values(|w: Toplevel| w@)
}

/// Whether two optional workspace identifiers are the same.
pub fn same_workspace(a: Option<u64>, b: Option<u64>) -> (res: bool)
    ensures
        res == (a == b),
{
    match (a, b) {
        (None, None) => true,
        (Some(x), Some(y)) => x == y,
        _ => false,
    }
}

impl Toplevel {
    /// A window with the given attributes.
    pub fn new(
        id: u64,
        app_id: String,
        title: String,
        outputs: Vec<String>,
        workspace: Option<u64>,
    ) -> (res: Toplevel)
        ensures
            res.id == id,
            res.app_id == app_id,
            res.title == title,
            res.outputs == outputs,
            res.workspace == workspace,
    {
        Toplevel { id, app_id, title, outputs, workspace }
    }

    /// A copy of this window's description.
    pub fn snapshot(&self) -> (res: Toplevel)
        ensures
            res@ == self@,
    {
        Toplevel {
            id: self.id,
            app_id: self.app_id.clone(),
            title: self.title.clone(),
            outputs: clone_names(&self.outputs),
            workspace: self.workspace,
        }
    }

    /// Whether `other` describes the same window with the same attributes.
    pub fn same_as(&self, other: &Toplevel) -> (res: bool)
        ensures
            res == (self@ == other@),
    {
        self.id == other.id && self.app_id == other.app_id && self.title == other.title
            && same_names(&self.outputs, &other.outputs) && same_workspace(
            self.workspace,
            other.workspace,
        )
    }
}

/// Whether `s` holds a window with identity `id`.
pub open spec fn has_window(s: Seq<ToplevelView>, id: u64) -> bool {
    exists|i: int| 0 <= i < s.len() && s[i].id == id
}

/// A position at which `s` holds the window `id`; meaningful when it holds one.
pub open spec fn slot_of(s: Seq<ToplevelView>, id: u64) -> int {
    choose|i: int| 0 <= i < s.len() && s[i].id == id
}

/// No two windows of `s` share an identity.
pub open spec fn unique_ids(s: Seq<ToplevelView>) -> bool {
    forall|i: int, j: int| 0 <= i < j < s.len() ==> s[i].id != s[j].id
}

/// The table after window `w` was created or updated: `w` takes the place of
/// the entry with its identity, or the last place where there is none.
pub open spec fn upserted(s: Seq<ToplevelView>, w: ToplevelView) -> Seq<ToplevelView> {
    if has_window(s, w.id) {
        s.update(slot_of(s, w.id), w)
    } else {
        s.push(w)
    }
}

/// The table after window `id` was closed: without its entry, the others in
/// their order; unchanged where there is no such entry.
pub open spec fn removed(s: Seq<ToplevelView>, id: u64) -> Seq<ToplevelView> {
    if has_window(s, id) {
        s.remove(slot_of(s, id))
    } else {
        s
    }
}

/// Creating or updating a window keeps identities unique, and the table then
/// holds the window.
pub proof fn lemma_upserted(s: Seq<ToplevelView>, w: ToplevelView)
    requires
        unique_ids(s),
    ensures
        unique_ids(upserted(s, w)),
        has_window(upserted(s, w), w.id),
        upserted(s, w).len() == if has_window(s, w.id) { s.len() } else { s.len() + 1 },
{
    let u = upserted(s, w);
    if has_window(s, w.id) {
        assert(u[slot_of(s, w.id)].id == w.id);
    } else {
        assert(u[s.len() as int].id == w.id);
    }
}

/// Closing a window keeps identities unique, and the table then no longer
/// holds the window.
pub proof fn lemma_removed(s: Seq<ToplevelView>, id: u64)
    requires
        unique_ids(s),
    ensures
        unique_ids(removed(s, id)),
        !has_window(removed(s, id), id),
        removed(s, id).len() == if has_window(s, id) { s.len() - 1 } else { s.len() as int },
{
    let r = removed(s, id);
    if has_window(s, id) {
        // What stands at `i` in `r` stood at `i`, or one further on, in `s`.
        assert forall|i: int| 0 <= i < r.len() implies r[i].id != id by {}
    }
}

/// The windows that are currently open, in the order of their first appearance.
/// A well-formed table holds each identity once; every table that this module
/// hands out is well-formed.
pub struct WindowTable {
    windows: Vec<Toplevel>,
}

impl View for WindowTable {
    type V = Seq<ToplevelView>;

    closed spec fn view(&self) -> Seq<ToplevelView> {
        window_views(self.windows@)
    }
}

impl WindowTable {
    /// Each identity occurs once.
    pub open spec fn wf(&self) -> bool {
        unique_ids(self@)
    }

    /// The empty table.
    pub fn new() -> (res: Self)
        ensures
            res.wf(),
            res@ == Seq::<ToplevelView>::empty(),
    {
        let res = WindowTable { windows: Vec::new() };
        res
    }

    /// How many windows are open.
    pub fn len(&self) -> (n: usize)
        ensures
            n == self@.len(),
    {
        self.windows.len()
    }

    /// The position of window `id` in the table, if it is there.
    pub fn find(&self, id: u64) -> (res: Option<usize>)
        requires
            self.wf(),
        ensures
            res is Some <==> has_window(self@, id),
            res matches Some(i) ==> i as int == slot_of(self@, id) && i < self@.len()
                && self@[i as int].id == id,
    {
        let n: usize = self.windows.len();
        let mut i: usize = 0;
        while i < n
            invariant
                n == self@.len(),
                n == self.windows@.len(),
                i <= n,
                self.wf(),
                forall|j: int| 0 <= j < i ==> self@[j].id != id,
            decreases n - i,
        {
            if self.windows[i].id == id {
                return Some(i);
            }
            i = i + 1;
        }
        None
    }

    /// The window at position `i`.
    pub fn at(&self, i: usize) -> (w: &Toplevel)
        requires
            i < self@.len(),
        ensures
            w@ == self@[i as int],
    {
        &self.windows[i]
    }

    /// The window with identity `id`, if it is open.
    pub fn get(&self, id: u64) -> (res: Option<&Toplevel>)
        requires
            self.wf(),
        ensures
            res is Some <==> has_window(self@, id),
            res matches Some(w) ==> w@ == self@[slot_of(self@, id)],
    {
        match self.find(id) {
            Some(i) => Some(&self.windows[i]),
            None => None,
        }
    }

    /// Records window `id` with the given attributes: a known window keeps its
    /// place and takes the attributes, an unknown one is added at the end.
    /// Returns whether anything observable changed.
    pub fn upsert(
        &mut self,
        id: u64,
        app_id: String,
        title: String,
        outputs: Vec<String>,
        workspace: Option<u64>,
    ) -> (changed: bool)
        requires
            old(self).wf(),
        ensures
            final(self).wf(),
            final(self)@ == upserted(
                old(self)@,
                (ToplevelView {
                    id,
                    app_id: app_id@,
                    title: title@,
                    outputs: names(outputs@).to_set(),
                    workspace,
                }),
            ),
            changed == (final(self)@ != old(self)@),
    {
        let w = Toplevel { id, app_id, title, outputs, workspace };
        match self.find(id) {
            Some(i) => {
                if self.windows[i].same_as(&w) {
                    false
                } else {
                    self.windows.set(i, w);
                    assert(self@ =~= upserted(old(self)@, w@));
                    true
                }
            },
            None => {
                self.windows.push(w);
                assert(self@ =~= upserted(old(self)@, w@));
                true
            },
        }
    }

    /// Forgets window `id`. Closing a window that is not in the table changes
    /// nothing. Returns whether a window was removed.
    pub fn remove(&mut self, id: u64) -> (changed: bool)
        requires
            old(self).wf(),
        ensures
            final(self).wf(),
            final(self)@ == removed(old(self)@, id),
            changed == has_window(old(self)@, id),
            changed == (final(self)@ != old(self)@),
    {
        match self.find(id) {
            Some(i) => {
                self.windows.remove(i);
                assert(self@ =~= removed(old(self)@, id));
                true
            },
            None => false,
        }
    }

    /// A snapshot of every open window, in table order.
    pub fn all(&self) -> (res: Vec<Toplevel>)
        ensures
            window_views(res@) == self@,
    {
        let n: usize = self.windows.len();
        let mut out: Vec<Toplevel> = Vec::new();
        let mut i: usize = 0;
        while i < n
            invariant
                n == self.windows@.len(),
                i <= n,
                out@.len() == i,
                forall|j: int| 0 <= j < i ==> out@[j]@ == self.windows@[j]@,
            decreases n - i,
        {
            out.push(self.windows[i].snapshot());
            i = i + 1;
        }
        out
    }
}

} // verus!
