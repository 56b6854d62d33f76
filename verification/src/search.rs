//! The catalog search request: the filters a user set, and the query string
//! they become.
//!
//! Recognised parameters: q, min_price, max_price, min_rating, user_zip,
//! available_from, available_to, categories (comma-separated ids), tags
//! (comma-separated ids), limit, offset, sort.

use vstd::prelude::*;
use crate::decimal::{decimal, push_decimal};
use crate::text::{blank, chars_of, is_blank, join, join_strings, string_of, trim_chars, trimmed, views};
use crate::url::{encode_bytes, urlencode};

verus! {

/// The filters of a catalog search. The price and rating bounds are held as
/// the decimal text of the number the user entered (as `f64`'s `Display`
/// writes it), which is what goes into the query string.
#[derive(Clone, Debug)]
pub struct SearchParams {
    pub q: Option<String>,
    pub min_price: Option<String>,
    pub max_price: Option<String>,
    pub min_rating: Option<String>,
    pub user_zip: Option<String>,
    pub sort: Option<String>,
    /// Start of the availability window (`%Y-%m-%dT%H:%M:%S`).
    pub available_from: Option<String>,
    /// End of the availability window (`%Y-%m-%dT%H:%M:%S`).
    pub available_to: Option<String>,
    /// Category ids: a service must belong to all of them.
    pub categories: Vec<String>,
    /// Tag ids: a service must carry at least one of them.
    pub tags: Vec<String>,
    pub limit: Option<u32>,
    pub offset: Option<u32>,
}

impl Default for SearchParams {
    /// No filter set.
    fn default() -> (p: Self)
        ensures
            p.q is None,
            p.min_price is None,
            p.max_price is None,
            p.min_rating is None,
            p.user_zip is None,
            p.sort is None,
            p.available_from is None,
            p.available_to is None,
            p.categories@.len() == 0,
            p.tags@.len() == 0,
            p.limit is None,
            p.offset is None,
    {
        SearchParams {
            q: None,
            min_price: None,
            max_price: None,
            min_rating: None,
            user_zip: None,
            sort: None,
            available_from: None,
            available_to: None,
            categories: Vec::new(),
            tags: Vec::new(),
            limit: None,
            offset: None,
        }
    }
}

/// The non-blank entries of `ids`, each trimmed, in order.
pub open spec fn kept_ids(ids: Seq<Seq<char>>) -> Seq<Seq<char>>
    decreases ids.len(),
{
    if ids.len() == 0 {
        Seq::empty()
    } else {
        let rest = kept_ids(ids.drop_last());
        let t = trimmed(ids.last());
        if t.len() == 0 {
            rest
        } else {
            rest.push(t)
        }
    }
}

/// The percent-encoded form of a character string.
pub open spec fn encoded(s: Seq<char>) -> Seq<char> {
    encode_bytes(vstd::utf8::encode_utf8(s))
}

/// `key=` followed by `value`.
pub open spec fn param(key: Seq<char>, value: Seq<char>) -> Seq<char> {
    key + "="@ + value
}

/// A free-text parameter: present only when set and not blank; its value is
/// percent-encoded as given (untrimmed).
pub open spec fn text_param(key: Seq<char>, v: Option<String>) -> Seq<Seq<char>> {
    match v {
        Some(s) => if is_blank(s@) {
            Seq::empty()
        } else {
            seq![param(key, encoded(s@))]
        },
        None => Seq::empty(),
    }
}

/// A parameter whose value goes into the query string as it is.
pub open spec fn raw_param(key: Seq<char>, v: Option<String>) -> Seq<Seq<char>> {
    match v {
        Some(s) => seq![param(key, s@)],
        None => Seq::empty(),
    }
}

/// A numeric parameter, written in decimal.
pub open spec fn num_param(key: Seq<char>, v: Option<u32>) -> Seq<Seq<char>> {
    match v {
        Some(n) => seq![param(key, decimal(n as nat))],
        None => Seq::empty(),
    }
}

/// An id-list parameter: the kept ids joined with commas and encoded; absent
/// when no id is kept.
pub open spec fn ids_param(key: Seq<char>, ids: Seq<String>) -> Seq<Seq<char>> {
    let j = join(kept_ids(views(ids)), ","@);
    if j.len() == 0 {
        Seq::empty()
    } else {
        seq![param(key, encoded(j))]
    }
}

/// The query-string entries of `p`, in the order they are emitted.
pub open spec fn query_parts(p: SearchParams) -> Seq<Seq<char>> {
    text_param("q"@, p.q) + raw_param("min_price"@, p.min_price) + raw_param(
        "max_price"@,
        p.max_price,
    ) + raw_param("min_rating"@, p.min_rating) + text_param("user_zip"@, p.user_zip)
        + text_param("available_from"@, p.available_from) + text_param(
        "available_to"@,
        p.available_to,
    ) + ids_param("categories"@, p.categories@) + ids_param("tags"@, p.tags@) + num_param(
        "limit"@,
        p.limit,
    ) + num_param("offset"@, p.offset) + raw_param("sort"@, p.sort)
}

/// The search path for `p`: the bare endpoint when no entry is emitted,
/// otherwise the endpoint, `?`, and the entries joined with `&`.
pub open spec fn search_path(p: SearchParams) -> Seq<char> {
    let parts = query_parts(p);
    if parts.len() == 0 {
        "/api/services/search"@
    } else {
        "/api/services/search?"@ + join(parts, "&"@)
    }
}

/// The non-blank ids of `ids`, trimmed, joined with commas.
pub fn join_ids(ids: &[String]) -> (r: String)
    ensures
        r@ == join(kept_ids(views(ids@)), ","@),
{
    let mut kept: Vec<String> = Vec::new();
    let mut i: usize = 0;
    while i < ids.len()
        invariant
            i <= ids@.len(),
            views(kept@) == kept_ids(views(ids@).take(i as int)),
        decreases ids.len() - i,
    {
        let chars = chars_of(ids[i].as_str());
        let t = trim_chars(&chars);
        proof {
            let w = views(ids@).take(i + 1);
            assert(w.drop_last() =~= views(ids@).take(i as int));
            assert(w.last() == ids@[i as int]@);
        }
        if t.len() > 0 {
            let s = string_of(&t);
            let ghost before = views(kept@);
            kept.push(s);
            proof {
                assert(views(kept@) =~= before.push(s@));
            }
        }
        i = i + 1;
    }
    proof {
        assert(views(ids@).take(ids@.len() as int) =~= views(ids@));
    }
    join_strings(kept.as_slice(), ",")
}

/// Appends `key=value` to `qs`.
fn push_param(qs: &mut Vec<String>, key: &str, value: &str)
    ensures
        views(final(qs)@) == views(old(qs)@).push(param(key@, value@)),
{
    let mut s = String::from_str(key);
    s.append("=");
    s.append(value);
    qs.push(s);
    proof {
        assert(views(qs@) =~= views(old(qs)@).push(param(key@, value@)));
    }
}

fn push_text(qs: &mut Vec<String>, key: &str, v: &Option<String>)
    ensures
        views(final(qs)@) == views(old(qs)@) + text_param(key@, *v),
{
    match v {
        Some(s) => {
            if !blank(s.as_str()) {
                let e = urlencode(s.as_str());
                push_param(qs, key, e.as_str());
                proof {
                    assert(views(qs@) =~= views(old(qs)@) + text_param(key@, *v));
                }
            } else {
                proof {
                    assert(views(qs@) =~= views(old(qs)@) + text_param(key@, *v));
                }
            }
        },
        None => {
            proof {
                assert(views(qs@) =~= views(old(qs)@) + text_param(key@, *v));
            }
        },
    }
}

fn push_raw(qs: &mut Vec<String>, key: &str, v: &Option<String>)
    ensures
        views(final(qs)@) == views(old(qs)@) + raw_param(key@, *v),
{
    match v {
        Some(s) => {
            push_param(qs, key, s.as_str());
        },
        None => {},
    }
    proof {
        assert(views(qs@) =~= views(old(qs)@) + raw_param(key@, *v));
    }
}

fn push_num(qs: &mut Vec<String>, key: &str, v: Option<u32>)
    ensures
        views(final(qs)@) == views(old(qs)@) + num_param(key@, v),
{
    match v {
        Some(n) => {
            let mut s = String::new();
            push_decimal(&mut s, n as u64);
            push_param(qs, key, s.as_str());
        },
        None => {},
    }
    proof {
        assert(views(qs@) =~= views(old(qs)@) + num_param(key@, v));
    }
}

fn push_ids(qs: &mut Vec<String>, key: &str, ids: &Vec<String>)
    ensures
        views(final(qs)@) == views(old(qs)@) + ids_param(key@, ids@),
{
    let j = join_ids(ids.as_slice());
    if !j.as_str().is_empty() {
        let e = urlencode(j.as_str());
        push_param(qs, key, e.as_str());
    }
    proof {
        assert(views(qs@) =~= views(old(qs)@) + ids_param(key@, ids@));
    }
}

/// The search endpoint path carrying the filters of `p` as a query string.
pub fn build_search_path(p: &SearchParams) -> (r: String)
    ensures
        r@ == search_path(*p),
{
    let mut qs: Vec<String> = Vec::new();
    push_text(&mut qs, "q", &p.q);
    push_raw(&mut qs, "min_price", &p.min_price);
    push_raw(&mut qs, "max_price", &p.max_price);
    push_raw(&mut qs, "min_rating", &p.min_rating);
    push_text(&mut qs, "user_zip", &p.user_zip);
    push_text(&mut qs, "available_from", &p.available_from);
    push_text(&mut qs, "available_to", &p.available_to);
    push_ids(&mut qs, "categories", &p.categories);
    push_ids(&mut qs, "tags", &p.tags);
    push_num(&mut qs, "limit", p.limit);
    push_num(&mut qs, "offset", p.offset);
    push_raw(&mut qs, "sort", &p.sort);
    proof {
        assert(views(qs@) =~= query_parts(*p));
    }
    if qs.len() == 0 {
        String::from_str("/api/services/search")
    } else {
        let mut s = String::from_str("/api/services/search?");
        let j = join_strings(qs.as_slice(), "&");
        s.append(j.as_str());
        s
    }
}

/// With no filter set the path is the bare search endpoint.
pub proof fn unfiltered_search_is_bare(p: SearchParams)
    requires
        p.q is None,
        p.min_price is None,
        p.max_price is None,
        p.min_rating is None,
        p.user_zip is None,
        p.sort is None,
        p.available_from is None,
        p.available_to is None,
        p.categories@.len() == 0,
        p.tags@.len() == 0,
        p.limit is None,
        p.offset is None,
    ensures
        search_path(p) == "/api/services/search"@,
{
    assert(kept_ids(views(p.categories@)) =~= Seq::<Seq<char>>::empty());
    assert(kept_ids(views(p.tags@)) =~= Seq::<Seq<char>>::empty());
    assert(query_parts(p) =~= Seq::<Seq<char>>::empty());
}


/// One entry per filter the user set, independently of the others.
pub open spec fn count_if(b: bool) -> nat {
    if b {
        1
    } else {
        0
    }
}

proof fn lemma_entry_kept(a: Seq<Seq<char>>, e: Seq<Seq<char>>, b: Seq<Seq<char>>)
    requires
        e.len() == 1,
    ensures
        (a + e + b).contains(e[0]),
{
    assert((a + e + b)[a.len() as int] == e[0]);
}

/// The parts `c[0]`, ..., `c[n - 1]` one after the other.
pub open spec fn concat_upto(c: Seq<Seq<Seq<char>>>, n: int) -> Seq<Seq<char>>
    decreases n,
{
    if n <= 0 {
        Seq::empty()
    } else {
        concat_upto(c, n - 1) + c[n - 1]
    }
}

proof fn lemma_concat_upto_contains(c: Seq<Seq<Seq<char>>>, n: int, i: int)
    requires
        0 <= i < n <= c.len(),
        c[i].len() == 1,
    ensures
        concat_upto(c, n).contains(c[i][0]),
    decreases n,
{
    if i == n - 1 {
        lemma_entry_kept(concat_upto(c, n - 1), c[i], Seq::empty());
        assert(concat_upto(c, n) =~= concat_upto(c, n - 1) + c[i] + Seq::empty());
    } else {
        lemma_concat_upto_contains(c, n - 1, i);
        let x = concat_upto(c, n - 1);
        let m = choose|m: int| 0 <= m < x.len() && #[trigger] x[m] == c[i][0];
        assert(concat_upto(c, n)[m] == c[i][0]);
    }
}

/// Every filter the user set goes into the query, whatever the other
/// filters are: a price or rating bound and the sort key as written, a
/// non-blank text filter percent-encoded, a page size or offset in decimal,
/// an id list with a kept id as its encoded comma-joined ids; and there is
/// exactly one entry per filter set.
pub proof fn search_query_carries_every_filter(p: SearchParams)
    ensures
        p.q matches Some(s) ==> (!is_blank(s@) ==> query_parts(p).contains(param("q"@, encoded(s@)))),
        p.min_price matches Some(v) ==> query_parts(p).contains(param("min_price"@, v@)),
        p.max_price matches Some(v) ==> query_parts(p).contains(param("max_price"@, v@)),
        p.min_rating matches Some(v) ==> query_parts(p).contains(param("min_rating"@, v@)),
        p.user_zip matches Some(s) ==> (!is_blank(s@) ==> query_parts(p).contains(param("user_zip"@, encoded(s@)))),
        p.available_from matches Some(s) ==> (!is_blank(s@) ==> query_parts(p).contains(param("available_from"@, encoded(s@)))),
        p.available_to matches Some(s) ==> (!is_blank(s@) ==> query_parts(p).contains(param("available_to"@, encoded(s@)))),
        (join(kept_ids(views(p.categories@)), ","@).len() > 0) ==> query_parts(p).contains(param("categories"@, encoded(join(kept_ids(views(p.categories@)), ","@)))),
        (join(kept_ids(views(p.tags@)), ","@).len() > 0) ==> query_parts(p).contains(param("tags"@, encoded(join(kept_ids(views(p.tags@)), ","@)))),
        p.limit matches Some(n) ==> query_parts(p).contains(param("limit"@, decimal(n as nat))),
        p.offset matches Some(n) ==> query_parts(p).contains(param("offset"@, decimal(n as nat))),
        p.sort matches Some(v) ==> query_parts(p).contains(param("sort"@, v@)),
        query_parts(p).len() == count_if((match p.q { Some(s) => !is_blank(s@), None => false }))
            + count_if(p.min_price is Some)
            + count_if(p.max_price is Some)
            + count_if(p.min_rating is Some)
            + count_if((match p.user_zip { Some(s) => !is_blank(s@), None => false }))
            + count_if((match p.available_from { Some(s) => !is_blank(s@), None => false }))
            + count_if((match p.available_to { Some(s) => !is_blank(s@), None => false }))
            + count_if(join(kept_ids(views(p.categories@)), ","@).len() > 0)
            + count_if(join(kept_ids(views(p.tags@)), ","@).len() > 0)
            + count_if(p.limit is Some)
            + count_if(p.offset is Some)
            + count_if(p.sort is Some),
{
    let c: Seq<Seq<Seq<char>>> = seq![text_param("q"@, p.q), raw_param("min_price"@, p.min_price), raw_param("max_price"@, p.max_price), raw_param("min_rating"@, p.min_rating), text_param("user_zip"@, p.user_zip), text_param("available_from"@, p.available_from), text_param("available_to"@, p.available_to), ids_param("categories"@, p.categories@), ids_param("tags"@, p.tags@), num_param("limit"@, p.limit), num_param("offset"@, p.offset), raw_param("sort"@, p.sort)];
    assert(query_parts(p) == concat_upto(c, 12)) by {
        reveal_with_fuel(concat_upto, 13);
    }
    assert forall|i: int| 0 <= i < 12 && (#[trigger] c[i]).len() == 1 implies query_parts(p).contains(c[i][0]) by {
        lemma_concat_upto_contains(c, 12, i);
    }
    assert(c[0] == text_param("q"@, p.q));
    assert(c[1] == raw_param("min_price"@, p.min_price));
    assert(c[2] == raw_param("max_price"@, p.max_price));
    assert(c[3] == raw_param("min_rating"@, p.min_rating));
    assert(c[4] == text_param("user_zip"@, p.user_zip));
    assert(c[5] == text_param("available_from"@, p.available_from));
    assert(c[6] == text_param("available_to"@, p.available_to));
    assert(c[7] == ids_param("categories"@, p.categories@));
    assert(c[8] == ids_param("tags"@, p.tags@));
    assert(c[9] == num_param("limit"@, p.limit));
    assert(c[10] == num_param("offset"@, p.offset));
    assert(c[11] == raw_param("sort"@, p.sort));
}

} // verus!
