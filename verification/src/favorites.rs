//! The ordered list of pinned applications.
//!
//! Order is display order. An application is pinned at most once: pinning
//! appends, unpinning removes, and a reorder replaces the whole sequence after
//! it has been checked for duplicates.

use vstd::prelude::*;
use vstd::string::*;
use crate::names::{
    all_distinct, clone_names, contains_name, first_index, is_first, lemma_first_index_exists,
    names, position,
};

verus! {

/// The favorites after pinning `id`: unchanged where `id` is already pinned,
/// else with `id` at the end.
pub open spec fn pinned(favs: Seq<Seq<char>>, id: Seq<char>) -> Seq<Seq<char>> {
    if favs.contains(id) {
        favs
    } else {
        favs.push(id)
    }
}

/// The favorites after unpinning `id`: unchanged where `id` is not pinned,
/// else without its first occurrence.
pub open spec fn unpinned(favs: Seq<Seq<char>>, id: Seq<char>) -> Seq<Seq<char>> {
    if favs.contains(id) {
        favs.remove(first_index(favs, id))
    } else {
        favs
    }
}

/// Pinning never introduces a duplicate.
pub proof fn lemma_pinned_no_duplicates(favs: Seq<Seq<char>>, id: Seq<char>)
    requires
        favs.no_duplicates(),
    ensures
        pinned(favs, id).no_duplicates(),
        pinned(favs, id).contains(id),
{
    if !favs.contains(id) {
        let p = favs.push(id);
        assert(p[favs.len() as int] == id);
    }
}

/// Unpinning keeps the list free of duplicates and leaves `id` unpinned.
pub proof fn lemma_unpinned_no_duplicates(favs: Seq<Seq<char>>, id: Seq<char>)
    requires
        favs.no_duplicates(),
    ensures
        unpinned(favs, id).no_duplicates(),
        !unpinned(favs, id).contains(id),
{
    if favs.contains(id) {
        lemma_first_index_exists(favs, id);
        let k = first_index(favs, id);
        let r = favs.remove(k);
        // What stands at `i` in `r` stood at `i`, or one further on, in `favs`.
        assert forall|i: int| 0 <= i < r.len() implies r[i] != id by {}
        assert forall|i: int, j: int| 0 <= i < r.len() && 0 <= j < r.len() && i != j implies r[i]
            != r[j] by {}
    }
}

/// Pinning what is pinned, and unpinning what is not, change nothing; so
/// doing either twice is the same as doing it once.
pub proof fn lemma_pin_unpin_idempotent(favs: Seq<Seq<char>>, id: Seq<char>)
    requires
        favs.no_duplicates(),
    ensures
        favs.contains(id) ==> pinned(favs, id) == favs,
        !favs.contains(id) ==> unpinned(favs, id) == favs,
        pinned(pinned(favs, id), id) == pinned(favs, id),
        unpinned(unpinned(favs, id), id) == unpinned(favs, id),
{
    lemma_pinned_no_duplicates(favs, id);
    lemma_unpinned_no_duplicates(favs, id);
}

/// Unpinning right after a pin that added `id` gives back the list as it was.
pub proof fn lemma_unpin_undoes_pin(favs: Seq<Seq<char>>, id: Seq<char>)
    requires
        !favs.contains(id),
    ensures
        unpinned(pinned(favs, id), id) == favs,
{
    let p = favs.push(id);
    assert(is_first(p, id, favs.len() as int));
}

/// The names `s` pinned one after the other, starting from nothing: `s`
/// without the repetitions of a name.
pub open spec fn pinned_all(s: Seq<Seq<char>>) -> Seq<Seq<char>>
    decreases s.len(),
{
    if s.len() == 0 {
        Seq::empty()
    } else {
        pinned(pinned_all(s.drop_last()), s.last())
    }
}

/// Pinning names one after the other gives a list without duplicates that
/// holds exactly the names given; names that are distinct come out as they are.
pub proof fn lemma_pinned_all(s: Seq<Seq<char>>)
    ensures
        pinned_all(s).no_duplicates(),
        forall|x: Seq<char>| pinned_all(s).contains(x) <==> s.contains(x),
        s.no_duplicates() ==> pinned_all(s) == s,
    decreases s.len(),
{
    if s.len() > 0 {
        let front = s.drop_last();
        lemma_pinned_all(front);
        lemma_pinned_no_duplicates(pinned_all(front), s.last());
        let p = pinned_all(s);
        assert forall|x: Seq<char>| p.contains(x) <==> s.contains(x) by {
            if s.contains(x) {
                let i = choose|i: int| 0 <= i < s.len() && s[i] == x;
                if i < s.len() - 1 {
                    assert(front[i] == x);
                    assert(front.contains(x));
                    let k = choose|k: int|
                        0 <= k < pinned_all(front).len() && pinned_all(front)[k] == x;
                    assert(p[k] == x);
                }
            }
            if p.contains(x) {
                let k = choose|k: int| 0 <= k < p.len() && p[k] == x;
                if k < pinned_all(front).len() {
                    assert(front.contains(x));
                }
            }
        }
    }
}

/// Appends `id` to `list` unless a string of `list` already spells it.
/// Returns whether the list changed.
pub fn push_unique(list: &mut Vec<String>, id: String) -> (changed: bool)
    ensures
        names(final(list)@) == pinned(names(old(list)@), id@),
        changed == !names(old(list)@).contains(id@),
{
    if contains_name(list, &id) {
        false
    } else {
        list.push(id);
        true
    }
}

/// Removes from `list` the first string that spells `id`, if there is one.
/// Returns whether the list changed.
pub fn remove_first(list: &mut Vec<String>, id: &str) -> (changed: bool)
    ensures
        names(final(list)@) == unpinned(names(old(list)@), id@),
        changed == names(old(list)@).contains(id@),
{
    let key = String::from_str(id);
    match position(list, &key) {
        Some(pos) => {
            list.remove(pos);
            true
        },
        None => false,
    }
}

/// Why a request to change the favorites was turned down.
#[derive(Debug, Clone, Copy, PartialEq, Eq)]
pub enum FavoritesError {
    /// The proposed sequence names an application more than once.
    InvalidFavorites,
}

/// The pinned applications, in display order. A well-formed list names each
/// application at most once; every list that this module hands out is well-formed.
pub struct FavoritesList {
    entries: Vec<String>,
}

impl View for FavoritesList {
    type V = Seq<Seq<char>>;

    closed spec fn view(&self) -> Seq<Seq<char>> {
        names(self.entries@)
    }
}

impl FavoritesList {
    /// No application is listed twice.
    pub open spec fn wf(&self) -> bool {
        self@.no_duplicates()
    }

    /// The empty list.
    pub fn new() -> (res: Self)
        ensures
            res.wf(),
            res@ == Seq::<Seq<char>>::empty(),
    {
        let res = FavoritesList { entries: Vec::new() };
        res
    }

    /// The list of the names `list`, each kept where it first occurs.
    pub fn from_names(list: &Vec<String>) -> (res: Self)
        ensures
            res.wf(),
            res@ == pinned_all(names(list@)),
    {
        let ghost all = names(list@);
        let n: usize = list.len();
        let mut entries: Vec<String> = Vec::new();
        let mut i: usize = 0;
        while i < n
            invariant
                n == list@.len(),
                all == names(list@),
                i <= n,
                names(entries@) == pinned_all(all.take(i as int)),
            decreases n - i,
        {
            assert(all.take(i as int + 1).drop_last() =~= all.take(i as int));
            push_unique(&mut entries, list[i].clone());
            i = i + 1;
        }
        proof {
            assert(all.take(n as int) =~= all);
            lemma_pinned_all(all);
        }
        FavoritesList { entries }
    }

    /// How many applications are pinned.
    pub fn len(&self) -> (n: usize)
        ensures
            n == self@.len(),
    {
        self.entries.len()
    }

    /// The application pinned at position `i`.
    pub fn get(&self, i: usize) -> (id: &String)
        requires
            i < self@.len(),
        ensures
            id@ == self@[i as int],
    {
        &self.entries[i]
    }

    /// Whether `app_id` is pinned.
    pub fn contains(&self, app_id: &String) -> (res: bool)
        ensures
            res == self@.contains(app_id@),
    {
        contains_name(&self.entries, app_id)
    }

    /// The pinned applications as strings, in order.
    pub fn to_vec(&self) -> (res: Vec<String>)
        ensures
            names(res@) == self@,
    {
        clone_names(&self.entries)
    }

    /// Pins `app_id` at the end of the list. Pinning what is already pinned
    /// changes nothing. Returns whether the list changed.
    pub fn pin(&mut self, app_id: String) -> (changed: bool)
        requires
            old(self).wf(),
        ensures
            final(self).wf(),
            final(self)@ == pinned(old(self)@, app_id@),
            changed == !old(self)@.contains(app_id@),
            changed == (final(self)@ != old(self)@),
    {
        push_unique(&mut self.entries, app_id)
    }

    /// Unpins `app_id`. Unpinning what is not pinned changes nothing.
    /// Returns whether the list changed.
    pub fn unpin(&mut self, app_id: &str) -> (changed: bool)
        requires
            old(self).wf(),
        ensures
            final(self).wf(),
            final(self)@ == unpinned(old(self)@, app_id@),
            changed == old(self)@.contains(app_id@),
            changed == (final(self)@ != old(self)@),
    {
        proof {
            lemma_unpinned_no_duplicates(self@, app_id@);
        }
        remove_first(&mut self.entries, app_id)
    }

    /// Replaces the whole list by `new_sequence`, which must name no
    /// application twice; a sequence with a duplicate is turned down and the
    /// list stays as it was.
    pub fn reorder(&mut self, new_sequence: Vec<String>) -> (res: Result<(), FavoritesError>)
        requires
            old(self).wf(),
        ensures
            final(self).wf(),
            names(new_sequence@).no_duplicates() ==> res is Ok && final(self)@ == names(
                new_sequence@,
            ),
            !names(new_sequence@).no_duplicates() ==> res == Err::<(), FavoritesError>(
                FavoritesError::InvalidFavorites,
            ) && final(self)@ == old(self)@,
    {
        if all_distinct(&new_sequence) {
            self.entries = new_sequence;
            Ok(())
        } else {
            Err(FavoritesError::InvalidFavorites)
        }
    }
}

} // verus!
