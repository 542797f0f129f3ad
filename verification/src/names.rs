//! Lists of names: application identifiers and output names.
//!
//! A `Vec<String>` is read through [`names`], the sequence of its character
//! sequences, so that contracts compare names by what they spell.

use vstd::prelude::*;

verus! {

/// What the strings of `v` spell, in order.
pub open spec fn names(v: Seq<String>) -> Seq<Seq<char>> {
    v.map_values(|s: String| s@)
}

/// `i` is the first position at which `s` holds `x`.
pub open spec fn is_first(s: Seq<Seq<char>>, x: Seq<char>, i: int) -> bool {
    &&& 0 <= i < s.len()
    &&& s[i] == x
    &&& forall|j: int| 0 <= j < i ==> s[j] != x
}

/// The first position at which `s` holds `x`; meaningful when `s.contains(x)`.
pub open spec fn first_index(s: Seq<Seq<char>>, x: Seq<char>) -> int {
    choose|i: int| is_first(s, x, i)
}

/// A sequence that holds `x` holds it at some first position.
pub proof fn lemma_first_index_exists(s: Seq<Seq<char>>, x: Seq<char>)
    requires
        s.contains(x),
    ensures
        is_first(s, x, first_index(s, x)),
    decreases s.len(),
{
    let w = choose|i: int| 0 <= i < s.len() && s[i] == x;
    if exists|j: int| 0 <= j < w && s[j] == x {
        let j = choose|j: int| 0 <= j < w && s[j] == x;
        let front = s.subrange(0, w);
        assert(front[j] == x);
        lemma_first_index_exists(front, x);
        let k = first_index(front, x);
        assert forall|m: int| 0 <= m < k implies s[m] != x by {
            assert(front[m] != x);
        }
        assert(is_first(s, x, k));
    } else {
        assert(is_first(s, x, w));
    }
}

/// The position of the first string of `v` that spells `name`, if any does.
pub fn position(v: &Vec<String>, name: &String) -> (res: Option<usize>)
    ensures
        res is Some <==> names(v@).contains(name@),
        res matches Some(i) ==> is_first(names(v@), name@, i as int),
{
    let n: usize = v.len();
    let mut i: usize = 0;
    while i < n
        invariant
            n == v@.len(),
            i <= n,
            forall|j: int| 0 <= j < i ==> names(v@)[j] != name@,
        decreases n - i,
    {
        if v[i] == *name {
            assert(names(v@)[i as int] == name@);
            return Some(i);
        }
        i = i + 1;
    }
    None
}

/// Whether some string of `v` spells `name`.
pub fn contains_name(v: &Vec<String>, name: &String) -> (res: bool)
    ensures
        res == names(v@).contains(name@),
{
    position(v, name).is_some()
}

/// Whether no two strings of `v` spell the same name.
pub fn all_distinct(v: &Vec<String>) -> (res: bool)
    ensures
        res == names(v@).no_duplicates(),
{
    let n: usize = v.len();
    let mut i: usize = 0;
    while i < n
        invariant
            n == v@.len(),
            i <= n,
            forall|a: int, b: int| 0 <= a < b < i ==> names(v@)[a] != names(v@)[b],
        decreases n - i,
    {
        let mut j: usize = 0;
        while j < i
            invariant
                n == v@.len(),
                i < n,
                j <= i,
                forall|a: int| 0 <= a < j ==> names(v@)[a] != names(v@)[i as int],
            decreases i - j,
        {
            if v[j] == v[i] {
                assert(names(v@)[j as int] == names(v@)[i as int]);
                return false;
            }
            j = j + 1;
        }
        i = i + 1;
    }
    true
}

/// A copy of `v` that spells the same names.
pub fn clone_names(v: &Vec<String>) -> (res: Vec<String>)
    ensures
        names(res@) == names(v@),
{
    let n: usize = v.len();
    let mut out: Vec<String> = Vec::new();
    let mut i: usize = 0;
    while i < n
        invariant
            n == v@.len(),
            i <= n,
            out@.len() == i,
            forall|j: int| 0 <= j < i ==> out@[j]@ == v@[j]@,
        decreases n - i,
    {
        out.push(v[i].clone());
        i = i + 1;
    }
    out
}

/// Whether every name of `a` is also a name of `b`.
pub fn names_within(a: &Vec<String>, b: &Vec<String>) -> (res: bool)
    ensures
        res == names(a@).to_set().subset_of(names(b@).to_set()),
{
    let n: usize = a.len();
    let mut i: usize = 0;
    while i < n
        invariant
            n == a@.len(),
            i <= n,
            forall|j: int| 0 <= j < i ==> names(b@).contains(#[trigger] names(a@)[j]),
        decreases n - i,
    {
        if !contains_name(b, &a[i]) {
            assert(names(a@).to_set().contains(names(a@)[i as int]));
            return false;
        }
        i = i + 1;
    }
    true
}

/// Whether `a` and `b` hold the same set of names.
pub fn same_names(a: &Vec<String>, b: &Vec<String>) -> (res: bool)
    ensures
        res == (names(a@).to_set() == names(b@).to_set()),
{
    let forth = names_within(a, b);
    let back = names_within(b, a);
    proof {
        if forth && back {
            assert(names(a@).to_set() =~= names(b@).to_set());
        }
    }
    forth && back
}

} // verus!
