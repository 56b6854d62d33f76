//! Tag selection in the review form: clicking a tag toggles its presence in
//! the list of selected tag ids.

use vstd::prelude::*;
use crate::text::{str_eq, views};

verus! {

/// `v` without its first occurrence of `x` (unchanged when `x` is absent).
pub open spec fn remove_first<A>(v: Seq<A>, x: A) -> Seq<A>
    decreases v.len(),
{
    if v.len() == 0 {
        v
    } else if v[0] == x {
        v.drop_first()
    } else {
        seq![v[0]] + remove_first(v.drop_first(), x)
    }
}

/// `v` with `x` toggled: its first occurrence removed if present, else `x`
/// appended.
pub open spec fn toggled<A>(v: Seq<A>, x: A) -> Seq<A> {
    if v.contains(x) {
        remove_first(v, x)
    } else {
        v.push(x)
    }
}

/// Whether no value occurs twice in `v`.
pub open spec fn no_duplicates<A>(v: Seq<A>) -> bool {
    forall|i: int, j: int| 0 <= i < j < v.len() ==> v[i] != v[j]
}

pub proof fn lemma_remove_first_at<A>(v: Seq<A>, x: A, p: int)
    requires
        0 <= p < v.len(),
        v[p] == x,
        forall|k: int| 0 <= k < p ==> v[k] != x,
    ensures
        remove_first(v, x) == v.remove(p),
    decreases p,
{
    if p == 0 {
        assert(v.drop_first() =~= v.remove(0));
    } else {
        lemma_remove_first_at(v.drop_first(), x, p - 1);
        assert(seq![v[0]] + v.drop_first().remove(p - 1) =~= v.remove(p));
    }
}

pub proof fn lemma_remove_first_absent<A>(v: Seq<A>, x: A)
    requires
        !v.contains(x),
    ensures
        remove_first(v, x) == v,
    decreases v.len(),
{
    if v.len() > 0 {
        assert(v[0] != x) by {
            if v[0] == x {
                assert(v.contains(x));
            }
        }
        assert(!v.drop_first().contains(x)) by {
            if v.drop_first().contains(x) {
                let k = choose|k: int| 0 <= k < v.drop_first().len() && v.drop_first()[k] == x;
                assert(v[k + 1] == x);
            }
        }
        lemma_remove_first_absent(v.drop_first(), x);
        assert(seq![v[0]] + v.drop_first() =~= v);
    }
}

/// The first index of `x` in `v`, found by a scan from the front.
pub proof fn lemma_first_index<A>(v: Seq<A>, x: A) -> (p: int)
    requires
        v.contains(x),
    ensures
        0 <= p < v.len(),
        v[p] == x,
        forall|k: int| 0 <= k < p ==> v[k] != x,
    decreases v.len(),
{
    if v[0] == x {
        0
    } else {
        assert(v.drop_first().contains(x)) by {
            let k = choose|k: int| 0 <= k < v.len() && v[k] == x;
            assert(k > 0);
            assert(v.drop_first()[k - 1] == x);
        }
        let q = lemma_first_index(v.drop_first(), x);
        assert forall|k: int| 0 <= k < q + 1 implies v[k] != x by {
            if k > 0 {
                assert(v[k] == v.drop_first()[k - 1]);
            }
        }
        q + 1
    }
}

pub proof fn lemma_remove_first_len<A>(v: Seq<A>, x: A)
    requires
        v.contains(x),
    ensures
        remove_first(v, x).len() == v.len() - 1,
{
    let p = lemma_first_index(v, x);
    lemma_remove_first_at(v, x, p);
}

pub proof fn lemma_remove_keeps_distinct<A>(v: Seq<A>, p: int)
    requires
        0 <= p < v.len(),
        no_duplicates(v),
    ensures
        no_duplicates(v.remove(p)),
        forall|y: A| #[trigger] v.remove(p).contains(y) ==> v.contains(y) && y != v[p],
{
    let w = v.remove(p);
    assert forall|i: int, j: int| 0 <= i < j < w.len() implies w[i] != w[j] by {
        let a = if i < p { i } else { i + 1 };
        let b = if j < p { j } else { j + 1 };
        assert(w[i] == v[a]);
        assert(w[j] == v[b]);
    }
    assert forall|y: A| #[trigger] w.contains(y) implies v.contains(y) && y != v[p] by {
        let k = choose|k: int| 0 <= k < w.len() && w[k] == y;
        let a = if k < p { k } else { k + 1 };
        assert(w[k] == v[a]);
    }
}

/// Toggling keeps a list free of repeats.
pub proof fn lemma_toggled_keeps_distinct<A>(v: Seq<A>, x: A)
    requires
        no_duplicates(v),
    ensures
        no_duplicates(toggled(v, x)),
{
    if v.contains(x) {
        let p = lemma_first_index(v, x);
        lemma_remove_first_at(v, x, p);
        lemma_remove_keeps_distinct(v, p);
    } else {
        let w = v.push(x);
        assert forall|i: int, j: int| 0 <= i < j < w.len() implies w[i] != w[j] by {
            if j == v.len() {
                assert(w[i] == v[i]);
            }
        }
    }
}

/// Index of the first string of `v` equal to `id`, if any.
pub fn position_of(v: &Vec<String>, id: &str) -> (r: Option<usize>)
    ensures
        match r {
            Some(p) => p < v@.len() && views(v@)[p as int] == id@ && forall|k: int|
                0 <= k < p ==> views(v@)[k] != id@,
            None => !views(v@).contains(id@),
        },
{
    let mut i: usize = 0;
    while i < v.len()
        invariant
            i <= v@.len(),
            forall|k: int| 0 <= k < i ==> views(v@)[k] != id@,
        decreases v.len() - i,
    {
        if str_eq(v[i].as_str(), id) {
            return Some(i);
        }
        i = i + 1;
    }
    proof {
        if views(v@).contains(id@) {
            let k = choose|k: int| 0 <= k < views(v@).len() && views(v@)[k] == id@;
            assert(views(v@)[k] != id@);
        }
    }
    None
}

/// Removes the string at `p` from `v`.
pub fn remove_at(v: &mut Vec<String>, p: usize)
    requires
        p < old(v)@.len(),
    ensures
        views(final(v)@) == views(old(v)@).remove(p as int),
{
    v.remove(p);
    proof {
        assert(views(v@) =~= views(old(v)@).remove(p as int));
    }
}

/// Appends a copy of `id` to `v`.
pub fn push_copy(v: &mut Vec<String>, id: &str)
    ensures
        views(final(v)@) == views(old(v)@).push(id@),
{
    v.push(String::from_str(id));
    proof {
        assert(views(v@) =~= views(old(v)@).push(id@));
    }
}

/// Toggles `tag_id` in `selected`: removes its first occurrence if present,
/// otherwise appends it; every other tag keeps its place.
pub fn toggle_tag(selected: &mut Vec<String>, tag_id: &str)
    ensures
        views(final(selected)@) == toggled(views(old(selected)@), tag_id@),
{
    match position_of(selected, tag_id) {
        Some(pos) => {
            proof {
                assert(views(selected@).contains(tag_id@));
                lemma_remove_first_at(views(selected@), tag_id@, pos as int);
            }
            remove_at(selected, pos);
        },
        None => {
            push_copy(selected, tag_id);
        },
    }
}

/// Toggling a tag that is not selected, and then toggling it again, gives
/// back the selection as it was.
pub proof fn toggle_tag_twice_restores(selected: Seq<Seq<char>>, tag: Seq<char>)
    requires
        !selected.contains(tag),
    ensures
        toggled(toggled(selected, tag), tag) == selected,
{
    let w = selected.push(tag);
    assert(w[selected.len() as int] == tag);
    assert(w.contains(tag));
    assert forall|k: int| 0 <= k < selected.len() implies w[k] != tag by {
        assert(w[k] == selected[k]);
        if selected[k] == tag {
            assert(selected.contains(tag));
        }
    }
    lemma_remove_first_at(w, tag, selected.len() as int);
    assert(w.remove(selected.len() as int) =~= selected);
}

/// A selection without repeats stays without repeats after a toggle.
pub proof fn toggle_tag_keeps_tags_distinct(selected: Seq<Seq<char>>, tag: Seq<char>)
    requires
        no_duplicates(selected),
    ensures
        no_duplicates(toggled(selected, tag)),
{
    lemma_toggled_keeps_distinct(selected, tag);
}

} // verus!
