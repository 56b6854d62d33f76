//! Selection of services for side-by-side comparison: a toggle that never
//! lets the selection grow past `COMPARE_LIMIT`.

use vstd::prelude::*;
use crate::tag_selection::{
    lemma_first_index, lemma_remove_first_at, lemma_remove_first_len, lemma_remove_keeps_distinct,
    no_duplicates, position_of, push_copy, remove_at, remove_first,
};
use crate::text::views;

verus! {

/// The most services a user may select for comparison.
pub const COMPARE_LIMIT: usize = 3;

/// The selection after toggling `x` in `v`: the first occurrence removed if
/// present; else `x` appended while below the limit; else unchanged.
pub open spec fn compare_toggled(v: Seq<Seq<char>>, x: Seq<char>) -> Seq<Seq<char>> {
    if v.contains(x) {
        remove_first(v, x)
    } else if v.len() < COMPARE_LIMIT {
        v.push(x)
    } else {
        v
    }
}

/// Toggles `id` in `selected`: removes it if present, appends it if absent
/// and the selection is below `COMPARE_LIMIT`, and otherwise leaves the
/// selection as it is.
pub fn toggle_compare(selected: &mut Vec<String>, id: &str)
    ensures
        views(final(selected)@) == compare_toggled(views(old(selected)@), id@),
{
    match position_of(selected, id) {
        Some(pos) => {
            proof {
                assert(views(selected@).contains(id@));
                lemma_remove_first_at(views(selected@), id@, pos as int);
            }
            remove_at(selected, pos);
        },
        None => {
            if selected.len() < COMPARE_LIMIT {
                push_copy(selected, id);
            }
        },
    }
}

/// Whether `selected` has reached `COMPARE_LIMIT` (the UI then disables the
/// remaining checkboxes).
pub fn at_limit(selected: &[String]) -> (r: bool)
    ensures
        r == (selected@.len() >= COMPARE_LIMIT),
{
    selected.len() >= COMPARE_LIMIT
}

/// A selection within the limit stays within the limit after any toggle.
pub proof fn toggle_compare_stays_within_limit(selected: Seq<Seq<char>>, id: Seq<char>)
    requires
        selected.len() <= COMPARE_LIMIT,
    ensures
        compare_toggled(selected, id).len() <= COMPARE_LIMIT,
{
    if selected.contains(id) {
        lemma_remove_first_len(selected, id);
    }
}

/// A selection without repeats stays without repeats after a toggle.
pub proof fn toggle_compare_keeps_ids_distinct(selected: Seq<Seq<char>>, id: Seq<char>)
    requires
        no_duplicates(selected),
    ensures
        no_duplicates(compare_toggled(selected, id)),
{
    if selected.contains(id) {
        let p = lemma_first_index(selected, id);
        lemma_remove_first_at(selected, id, p);
        lemma_remove_keeps_distinct(selected, p);
    } else if selected.len() < COMPARE_LIMIT {
        let w = selected.push(id);
        assert forall|i: int, j: int| 0 <= i < j < w.len() implies w[i] != w[j] by {
            if j == selected.len() {
                assert(w[i] == selected[i]);
            }
        }
    }
}

/// Selecting a service that is not selected, below the limit, and then
/// toggling it again gives back the selection as it was.
pub proof fn toggle_compare_twice_restores(selected: Seq<Seq<char>>, id: Seq<char>)
    requires
        !selected.contains(id),
        selected.len() < COMPARE_LIMIT,
    ensures
        compare_toggled(compare_toggled(selected, id), id) == selected,
{
    let w = selected.push(id);
    assert(w[selected.len() as int] == id);
    assert(w.contains(id));
    assert forall|k: int| 0 <= k < selected.len() implies w[k] != id by {
        assert(w[k] == selected[k]);
        if selected[k] == id {
            assert(selected.contains(id));
        }
    }
    lemma_remove_first_at(w, id, selected.len() as int);
    assert(w.remove(selected.len() as int) =~= selected);
}

/// At the limit, toggling a service that is not selected changes nothing.
pub proof fn toggle_compare_full_ignores_new(selected: Seq<Seq<char>>, id: Seq<char>)
    requires
        !selected.contains(id),
        selected.len() >= COMPARE_LIMIT,
    ensures
        compare_toggled(selected, id) == selected,
{
}

} // verus!
