//! Record ids: reading them from request text (through the `uuid` crate),
//! lists of ids separated by commas, and the canonical order of a set of
//! ids.
//!
//! An id is held as the `u128` whose big-endian bytes are the UUID's bytes,
//! so that ids order as UUIDs do.

use vstd::prelude::*;
use crate::search::kept_ids;
use crate::status::Status;
use crate::text::{chars_of, string_of, trim_chars, views};

verus! {

/// The id that `uuid::Uuid::parse_str` reads from `s`, as a `u128`, or
/// `None` where it refuses `s`.
pub uninterp spec fn uuid_text_value(s: Seq<char>) -> Option<u128>;

/// Calls `uuid::Uuid::parse_str` and takes the id as a `u128`
/// (`Uuid::as_u128`). The contract only names the result: the accepted
/// forms (simple, hyphenated, braced, URN) are the crate's.
#[verifier::external_body]
fn parse_uuid_text(s: &str) -> (r: Option<u128>)
    ensures
        r == uuid_text_value(s@),
{
    uuid::Uuid::parse_str(s).ok().map(|u| u.as_u128())
}

/// Reads the id in `s`; a malformed id is a bad request.
pub fn parse_id(s: &str) -> (r: Result<u128, Status>)
    ensures
        match uuid_text_value(s@) {
            Some(v) => r == Ok::<u128, Status>(v),
            None => r == Err::<u128, Status>(Status::BadRequest),
        },
{
    match parse_uuid_text(s) {
        Some(v) => Ok(v),
        None => Err(Status::BadRequest),
    }
}

/// What `str::split(sep)` yields: the pieces between separators, including
/// empty ones.
pub open spec fn split_on(s: Seq<char>, sep: char) -> Seq<Seq<char>>
    decreases s.len(),
{
    if s.len() == 0 {
        seq![Seq::empty()]
    } else {
        let r = split_on(s.drop_last(), sep);
        if s.last() == sep {
            r.push(Seq::empty())
        } else {
            r.update(r.len() - 1, r.last().push(s.last()))
        }
    }
}

proof fn lemma_split_nonempty(s: Seq<char>, sep: char)
    ensures
        split_on(s, sep).len() >= 1,
    decreases s.len(),
{
    if s.len() > 0 {
        lemma_split_nonempty(s.drop_last(), sep);
    }
}

/// The pieces of `v` between occurrences of `sep`.
pub fn split_chars(v: &Vec<char>, sep: char) -> (r: Vec<Vec<char>>)
    ensures
        r@.map_values(|p: Vec<char>| p@) == split_on(v@, sep),
{
    let mut done: Vec<Vec<char>> = Vec::new();
    let mut cur: Vec<char> = Vec::new();
    let mut i: usize = 0;
    while i < v.len()
        invariant
            i <= v@.len(),
            done@.map_values(|p: Vec<char>| p@).push(cur@) == split_on(v@.take(i as int), sep),
        decreases v.len() - i,
    {
        let c = v[i];
        let ghost prev = split_on(v@.take(i as int), sep);
        proof {
            assert(v@.take(i + 1).drop_last() =~= v@.take(i as int));
            assert(v@.take(i + 1).last() == c);
            lemma_split_nonempty(v@.take(i as int), sep);
        }
        if c == sep {
            let piece = cur;
            done.push(piece);
            cur = Vec::new();
            proof {
                assert(done@.map_values(|p: Vec<char>| p@).push(cur@) =~= prev.push(Seq::empty()));
            }
        } else {
            let ghost before = done@.map_values(|p: Vec<char>| p@);
            cur.push(c);
            proof {
                assert(done@.map_values(|p: Vec<char>| p@).push(cur@) =~= prev.update(
                    prev.len() - 1,
                    prev.last().push(c),
                ));
            }
        }
        i = i + 1;
    }
    proof {
        assert(v@.take(v@.len() as int) =~= v@);
    }
    done.push(cur);
    done
}

/// All the ids of `parsed`, or `None` if one of them is missing.
pub open spec fn collected(parsed: Seq<Option<u128>>) -> Option<Seq<u128>>
    decreases parsed.len(),
{
    if parsed.len() == 0 {
        Some(Seq::empty())
    } else {
        match (collected(parsed.drop_last()), parsed.last()) {
            (Some(a), Some(u)) => Some(a.push(u)),
            _ => None,
        }
    }
}

/// The ids read from each of `pieces`, or `None` if one of them is not an id.
pub open spec fn ids_of(pieces: Seq<Seq<char>>) -> Option<Seq<u128>> {
    collected(pieces.map_values(|p: Seq<char>| uuid_text_value(p)))
}

/// If one id of a prefix is missing, the whole list lacks it too.
proof fn lemma_collected_prefix_fails(v: Seq<Option<u128>>, n: int)
    requires
        0 <= n <= v.len(),
        collected(v.take(n)) is None,
    ensures
        collected(v) is None,
    decreases v.len() - n,
{
    if n == v.len() {
        assert(v.take(n) =~= v);
    } else {
        assert(v.take(n + 1).drop_last() =~= v.take(n));
        lemma_collected_prefix_fails(v, n + 1);
    }
}

/// The ids of `parsed` when every entry holds one; otherwise a bad request.
pub fn collect_ids(parsed: &Vec<Option<u128>>) -> (r: Result<Vec<u128>, Status>)
    ensures
        match collected(parsed@) {
            Some(v) => r matches Ok(w) && w@ == v,
            None => r == Err::<Vec<u128>, Status>(Status::BadRequest),
        },
{
    let mut out: Vec<u128> = Vec::new();
    let mut i: usize = 0;
    while i < parsed.len()
        invariant
            i <= parsed@.len(),
            collected(parsed@.take(i as int)) == Some(out@),
        decreases parsed.len() - i,
    {
        proof {
            assert(parsed@.take(i + 1).drop_last() =~= parsed@.take(i as int));
            assert(parsed@.take(i + 1).last() == parsed@[i as int]);
        }
        match parsed[i] {
            Some(u) => out.push(u),
            None => {
                proof {
                    lemma_collected_prefix_fails(parsed@, i + 1);
                }
                return Err(Status::BadRequest);
            },
        }
        i = i + 1;
    }
    proof {
        assert(parsed@.take(parsed@.len() as int) =~= parsed@);
    }
    Ok(out)
}

/// The entries of a comma-separated list: blank ones dropped, the others
/// trimmed.
pub fn csv_pieces(s: &str) -> (r: Vec<String>)
    ensures
        views(r@) == kept_ids(split_on(s@, ',')),
{
    let chars = chars_of(s);
    let pieces = split_chars(&chars, ',');
    let ghost ps = pieces@.map_values(|p: Vec<char>| p@);
    let mut out: Vec<String> = Vec::new();
    let mut i: usize = 0;
    while i < pieces.len()
        invariant
            i <= pieces@.len(),
            ps == pieces@.map_values(|p: Vec<char>| p@),
            ps == split_on(s@, ','),
            views(out@) == kept_ids(ps.take(i as int)),
        decreases pieces.len() - i,
    {
        let t = trim_chars(&pieces[i]);
        proof {
            assert(ps.take(i + 1).drop_last() =~= ps.take(i as int));
            assert(ps.take(i + 1).last() == pieces@[i as int]@);
            assert(ps[i as int] == pieces@[i as int]@);
        }
        if t.len() > 0 {
            let text = string_of(&t);
            let ghost before = views(out@);
            out.push(text);
            proof {
                assert(views(out@) =~= before.push(t@));
            }
        }
        i = i + 1;
    }
    proof {
        assert(ps.take(ps.len() as int) =~= ps);
    }
    out
}

/// The ids `uuid` reads from each of `texts`.
fn parse_each(texts: &[String]) -> (r: Vec<Option<u128>>)
    ensures
        r@ == views(texts@).map_values(|p: Seq<char>| uuid_text_value(p)),
{
    let mut r: Vec<Option<u128>> = Vec::new();
    let mut i: usize = 0;
    while i < texts.len()
        invariant
            i <= texts@.len(),
            r@ == views(texts@).take(i as int).map_values(|p: Seq<char>| uuid_text_value(p)),
        decreases texts.len() - i,
    {
        r.push(parse_uuid_text(texts[i].as_str()));
        proof {
            assert(views(texts@).take(i + 1).map_values(|p: Seq<char>| uuid_text_value(p))
                =~= views(texts@).take(i as int).map_values(|p: Seq<char>| uuid_text_value(p)).push(
                uuid_text_value(texts@[i as int]@),
            ));
        }
        i = i + 1;
    }
    proof {
        assert(views(texts@).take(texts@.len() as int) =~= views(texts@));
    }
    r
}

/// The ids of a comma-separated list: blank entries dropped, the others
/// trimmed and read; a malformed entry makes the whole list a bad request.
pub fn parse_uuid_csv(s: &str) -> (r: Result<Vec<u128>, Status>)
    ensures
        match ids_of(kept_ids(split_on(s@, ','))) {
            Some(v) => r matches Ok(w) && w@ == v,
            None => r == Err::<Vec<u128>, Status>(Status::BadRequest),
        },
{
    let pieces = csv_pieces(s);
    let parsed = parse_each(pieces.as_slice());
    collect_ids(&parsed)
}

/// Whether `v` is in strictly ascending order.
pub open spec fn strictly_ascending(v: Seq<u128>) -> bool {
    forall|i: int, j: int| 0 <= i < j < v.len() ==> v[i] < v[j]
}

proof fn lemma_insert_to_set(s: Seq<u128>, k: int, x: u128)
    requires
        0 <= k <= s.len(),
    ensures
        s.insert(k, x).to_set() == s.to_set().insert(x),
{
    let t = s.insert(k, x);
    assert forall|y: u128| t.contains(y) <==> s.contains(y) || y == x by {
        if t.contains(y) {
            let j = choose|j: int| 0 <= j < t.len() && t[j] == y;
            if j < k {
                assert(s[j] == y);
            } else if j > k {
                assert(s[j - 1] == y);
            }
        }
        if s.contains(y) {
            let j = choose|j: int| 0 <= j < s.len() && s[j] == y;
            if j < k {
                assert(t[j] == y);
            } else {
                assert(t[j + 1] == y);
            }
        }
        if y == x {
            assert(t[k] == x);
        }
    }
    assert(t.to_set() =~= s.to_set().insert(x));
}

/// `ids` in ascending order with repeats removed (`sort` then `dedup`).
pub fn canonical_ids(ids: &Vec<u128>) -> (r: Vec<u128>)
    ensures
        strictly_ascending(r@),
        r@.to_set() == ids@.to_set(),
{
    let mut out: Vec<u128> = Vec::new();
    let mut i: usize = 0;
    while i < ids.len()
        invariant
            i <= ids@.len(),
            strictly_ascending(out@),
            out@.to_set() == ids@.take(i as int).to_set(),
        decreases ids.len() - i,
    {
        let x = ids[i];
        let mut k: usize = 0;
        while k < out.len() && out[k] < x
            invariant
                k <= out@.len(),
                forall|m: int| 0 <= m < k ==> out@[m] < x,
            decreases out.len() - k,
        {
            k = k + 1;
        }
        let ghost before = out@;
        if k < out.len() && out[k] == x {
        } else {
            out.insert(k, x);
            proof {
                assert(out@ != before) by {
                    assert(out@.len() == before.len() + 1);
                }
            }
            proof {
                assert forall|a: int, b: int| 0 <= a < b < out@.len() implies out@[a] < out@[b] by {
                    if b < k {
                        assert(out@[a] == before[a] && out@[b] == before[b]);
                    } else if b == k {
                        assert(out@[a] == before[a]);
                    } else if a < k {
                        assert(out@[a] == before[a] && out@[b] == before[b - 1]);
                        if k < before.len() {
                            assert(before[k as int] >= x);
                            assert(before[k as int] <= before[b - 1] || b - 1 == k);
                        }
                    } else if a == k {
                        assert(out@[b] == before[b - 1]);
                        assert(before[k as int] >= x && before[k as int] != x);
                        assert(before[k as int] <= before[b - 1] || b - 1 == k);
                    } else {
                        assert(out@[a] == before[a - 1] && out@[b] == before[b - 1]);
                    }
                }
            }
        }
        proof {
            assert(ids@.take(i + 1) =~= ids@.take(i as int).push(x));
            ids@.take(i as int).lemma_push_to_set_commute(x);
            if out@ == before {
                assert(before[k as int] == x);
                assert(before.to_set().insert(x) =~= before.to_set());
            } else {
                lemma_insert_to_set(before, k as int, x);
                assert(out@ == before.insert(k as int, x));
            }
        }
        i = i + 1;
    }
    proof {
        assert(ids@.take(ids@.len() as int) =~= ids@);
    }
    out
}

/// The tag ids picked on a review: each must be an id (else a bad request);
/// they are then put in canonical order without repeats.
pub fn canonical_tag_ids(tag_ids: &[String]) -> (r: Result<Vec<u128>, Status>)
    ensures
        match ids_of(views(tag_ids@)) {
            Some(v) => r matches Ok(w) && strictly_ascending(w@) && w@.to_set() == v.to_set(),
            None => r == Err::<Vec<u128>, Status>(Status::BadRequest),
        },
{
    let parsed = parse_each(tag_ids);
    match collect_ids(&parsed) {
        Ok(ids) => Ok(canonical_ids(&ids)),
        Err(e) => Err(e),
    }
}

} // verus!
