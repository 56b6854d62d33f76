//! Catalog rules: reading search filters into a query plan, the ids of a
//! comparison, the columns a service update touches, and availability
//! windows.

use vstd::prelude::*;
use crate::ids::{ids_of, parse_uuid_csv, split_on};
use crate::search::kept_ids;
use crate::status::Status;
use crate::text::{blank, is_blank, str_eq, trimmed};

verus! {

/// A point in time as `(seconds since the Unix epoch, nanoseconds)`, the
/// way `chrono` splits a UTC timestamp.
pub type Instant = (i64, u32);

/// Whether `a` comes strictly before `b`.
pub open spec fn before(a: Instant, b: Instant) -> bool {
    a.0 < b.0 || (a.0 == b.0 && a.1 < b.1)
}

/// The instant that `chrono::NaiveDateTime::parse_from_str` reads from `s`
/// with the format `fmt`, or `None` where it refuses `s`.
pub uninterp spec fn datetime_text_value(s: Seq<char>, fmt: Seq<char>) -> Option<Instant>;

/// Calls `chrono::NaiveDateTime::parse_from_str` and gives the result as a
/// UTC timestamp with its sub-second nanoseconds. The contract names the
/// result only: the format language is chrono's.
#[verifier::external_body]
fn parse_datetime_text(s: &str, fmt: &str) -> (r: Option<Instant>)
    ensures
        r == datetime_text_value(s@, fmt@),
{
    match chrono::NaiveDateTime::parse_from_str(s, fmt) {
        Ok(d) => Some((d.and_utc().timestamp(), d.and_utc().timestamp_subsec_nanos())),
        Err(_) => None,
    }
}

/// The instant written in `s`: `%Y-%m-%dT%H:%M:%S`, else `%Y-%m-%d %H:%M:%S`.
pub open spec fn datetime_value(s: Seq<char>) -> Option<Instant> {
    match datetime_text_value(s, "%Y-%m-%dT%H:%M:%S"@) {
        Some(t) => Some(t),
        None => datetime_text_value(s, "%Y-%m-%d %H:%M:%S"@),
    }
}

/// The first of two readings that succeeded; a bad request when neither did.
pub fn first_reading(primary: Option<Instant>, fallback: Option<Instant>) -> (r: Result<
    Instant,
    Status,
>)
    ensures
        match (primary, fallback) {
            (Some(t), _) => r == Ok::<Instant, Status>(t),
            (None, Some(t)) => r == Ok::<Instant, Status>(t),
            (None, None) => r == Err::<Instant, Status>(Status::BadRequest),
        },
{
    match primary {
        Some(t) => Ok(t),
        None => match fallback {
            Some(t) => Ok(t),
            None => Err(Status::BadRequest),
        },
    }
}

/// Reads a search-window bound; neither accepted form is a bad request.
pub fn parse_dt(s: &str) -> (r: Result<Instant, Status>)
    ensures
        match datetime_value(s@) {
            Some(t) => r == Ok::<Instant, Status>(t),
            None => r == Err::<Instant, Status>(Status::BadRequest),
        },
{
    let primary = parse_datetime_text(s, "%Y-%m-%dT%H:%M:%S");
    let fallback = parse_datetime_text(s, "%Y-%m-%d %H:%M:%S");
    first_reading(primary, fallback)
}

/// How search results are ordered.
#[derive(Clone, Copy, Debug, PartialEq, Eq, Structural)]
pub enum SortMode {
    BestRated,
    LowestPrice,
    SoonestAvailable,
}

/// The ordering a `sort` value asks for: `lowest_price`,
/// `soonest_available`, and best rated for anything else or nothing.
pub open spec fn sort_mode_of(sort: Option<String>) -> SortMode {
    match sort {
        Some(s) => if s@ == "lowest_price"@ {
            SortMode::LowestPrice
        } else if s@ == "soonest_available"@ {
            SortMode::SoonestAvailable
        } else {
            SortMode::BestRated
        },
        None => SortMode::BestRated,
    }
}

/// The text filters of a catalog search request (the price and rating
/// bounds, being numbers, go to the query as they are).
#[derive(Clone, Debug)]
pub struct CatalogQuery {
    pub q: Option<String>,
    pub available_from: Option<String>,
    pub available_to: Option<String>,
    pub user_zip: Option<String>,
    pub sort: Option<String>,
    pub limit: Option<u32>,
    pub offset: Option<u32>,
    /// Comma-separated category ids: all must be attached.
    pub categories: Option<String>,
    /// Comma-separated tag ids: any one qualifies.
    pub tags: Option<String>,
}

/// What the search handler does with a request, once its text is read.
#[derive(Clone, Debug)]
pub struct SearchPlan {
    /// The ZIP code to look up, when one is given and not blank (trimmed).
    pub zip: Option<String>,
    /// The full-text query, when one is given and not blank.
    pub text: Option<String>,
    pub sort: SortMode,
    /// The availability window, applied only when both ends are given.
    pub window: Option<(Instant, Instant)>,
    pub categories: Vec<u128>,
    pub tags: Vec<u128>,
    pub limit: u32,
    pub offset: u32,
}

/// The ids of an optional id list (`None` reads as no id).
pub open spec fn opt_ids(s: Option<String>) -> Option<Seq<u128>> {
    match s {
        Some(t) => ids_of(kept_ids(split_on(t@, ','))),
        None => Some(Seq::empty()),
    }
}

/// Whether a search request is refused: a window bound that is given but
/// not a date-time, or an id list with a malformed entry.
pub open spec fn search_refused(q: CatalogQuery) -> bool {
    ||| (q.available_from matches Some(s) && datetime_value(s@) is None)
    ||| (q.available_to matches Some(s) && datetime_value(s@) is None)
    ||| opt_ids(q.categories) is None
    ||| opt_ids(q.tags) is None
}

/// A search request is refused when either window bound is given but is
/// not a date-time, or when either id list holds a malformed id; and it is
/// accepted when every given bound reads and both lists read.
pub proof fn search_refusal_laws(q: CatalogQuery)
    ensures
        (q.available_from matches Some(s) && datetime_value(s@) is None) ==> search_refused(q),
        (q.available_to matches Some(s) && datetime_value(s@) is None) ==> search_refused(q),
        opt_ids(q.categories) is None ==> search_refused(q),
        opt_ids(q.tags) is None ==> search_refused(q),
        (match q.available_from {
            Some(s) => datetime_value(s@) is Some,
            None => true,
        }) && (match q.available_to {
            Some(s) => datetime_value(s@) is Some,
            None => true,
        }) && opt_ids(q.categories) is Some && opt_ids(q.tags) is Some ==> !search_refused(q),
{
}

/// The page size: 50 unless given, and never above 200.
pub open spec fn page_limit(limit: Option<u32>) -> u32 {
    let l = match limit {
        Some(l) => l,
        None => 50,
    };
    if l < 200 {
        l
    } else {
        200
    }
}

fn read_ids(s: &Option<String>) -> (r: Result<Vec<u128>, Status>)
    ensures
        match opt_ids(*s) {
            Some(v) => r matches Ok(w) && w@ == v,
            None => r == Err::<Vec<u128>, Status>(Status::BadRequest),
        },
{
    match s {
        Some(t) => parse_uuid_csv(t.as_str()),
        None => Ok(Vec::new()),
    }
}

fn read_bound(s: &Option<String>) -> (r: Result<Option<Instant>, Status>)
    ensures
        match *s {
            Some(t) => match datetime_value(t@) {
                Some(v) => r == Ok::<Option<Instant>, Status>(Some(v)),
                None => r == Err::<Option<Instant>, Status>(Status::BadRequest),
            },
            None => r == Ok::<Option<Instant>, Status>(None),
        },
{
    match s {
        Some(t) => match parse_dt(t.as_str()) {
            Ok(v) => Ok(Some(v)),
            Err(e) => Err(e),
        },
        None => Ok(None),
    }
}

fn nonblank_copy(s: &Option<String>) -> (r: Option<String>)
    ensures
        match *s {
            Some(t) => if is_blank(t@) {
                r is None
            } else {
                r matches Some(u) && u@ == t@
            },
            None => r is None,
        },
{
    match s {
        Some(t) => if blank(t.as_str()) {
            None
        } else {
            Some(String::from_str(t.as_str()))
        },
        None => None,
    }
}

/// Whether the plan `p` follows the request `q` whose bounds and id lists
/// were read as `from`, `to`, `categories` and `tags`: ZIP and text query
/// when not blank (the ZIP trimmed), the sort mode, the window when both
/// ends are given, the id lists, the page size (`page_limit`) and the
/// offset (0 unless given).
pub open spec fn plan_follows(
    p: SearchPlan,
    q: CatalogQuery,
    from: Option<Instant>,
    to: Option<Instant>,
    categories: Seq<u128>,
    tags: Seq<u128>,
) -> bool {
    &&& (match q.user_zip {
        Some(z) => if is_blank(z@) {
            p.zip is None
        } else {
            p.zip matches Some(y) && y@ == trimmed(z@)
        },
        None => p.zip is None,
    })
    &&& (match q.q {
        Some(t) => if is_blank(t@) {
            p.text is None
        } else {
            p.text matches Some(y) && y@ == t@
        },
        None => p.text is None,
    })
    &&& p.sort == sort_mode_of(q.sort)
    &&& (match (from, to) {
        (Some(a), Some(b)) => p.window == Some((a, b)),
        _ => p.window is None,
    })
    &&& p.categories@ == categories
    &&& p.tags@ == tags
    &&& p.limit == page_limit(q.limit)
    &&& p.offset == (match q.offset {
        Some(o) => o,
        None => 0,
    })
}

/// The plan for request `q` once its window bounds and id lists are read.
pub fn assemble_plan(
    q: &CatalogQuery,
    from: Option<Instant>,
    to: Option<Instant>,
    categories: Vec<u128>,
    tags: Vec<u128>,
) -> (p: SearchPlan)
    ensures
        plan_follows(p, *q, from, to, categories@, tags@),
{
    let zip = match &q.user_zip {
        Some(z) => if blank(z.as_str()) {
            None
        } else {
            let chars = crate::text::chars_of(z.as_str());
            let t = crate::text::trim_chars(&chars);
            Some(crate::text::string_of(&t))
        },
        None => None,
    };
    let text = nonblank_copy(&q.q);
    let sort = match &q.sort {
        Some(s) => if str_eq(s.as_str(), "lowest_price") {
            SortMode::LowestPrice
        } else if str_eq(s.as_str(), "soonest_available") {
            SortMode::SoonestAvailable
        } else {
            SortMode::BestRated
        },
        None => SortMode::BestRated,
    };
    let window = match (from, to) {
        (Some(a), Some(b)) => Some((a, b)),
        _ => None,
    };
    let l = match q.limit {
        Some(l) => l,
        None => 50,
    };
    let limit = if l < 200 {
        l
    } else {
        200
    };
    let offset = match q.offset {
        Some(o) => o,
        None => 0,
    };
    SearchPlan { zip, text, sort, window, categories, tags, limit, offset }
}

/// Reads a search request: a bad request when `search_refused`, otherwise
/// the plan that follows it with its bounds and id lists read.
pub fn plan_search(q: &CatalogQuery) -> (r: Result<SearchPlan, Status>)
    ensures
        search_refused(*q) ==> r == Err::<SearchPlan, Status>(Status::BadRequest),
        !search_refused(*q) ==> (r matches Ok(p) && plan_follows(
            p,
            *q,
            match q.available_from {
                Some(a) => datetime_value(a@),
                None => None,
            },
            match q.available_to {
                Some(b) => datetime_value(b@),
                None => None,
            },
            opt_ids(q.categories).unwrap(),
            opt_ids(q.tags).unwrap(),
        )),
        (q.available_from matches Some(s) && datetime_value(s@) is None) ==> r == Err::<
            SearchPlan,
            Status,
        >(Status::BadRequest),
        (q.available_to matches Some(s) && datetime_value(s@) is None) ==> r == Err::<
            SearchPlan,
            Status,
        >(Status::BadRequest),
        opt_ids(q.categories) is None ==> r == Err::<SearchPlan, Status>(Status::BadRequest),
        opt_ids(q.tags) is None ==> r == Err::<SearchPlan, Status>(Status::BadRequest),
        r matches Err(e) ==> e == Status::BadRequest,
        r matches Ok(p) ==> (p.window is Some <==> (q.available_from is Some
            && q.available_to is Some)),
{
    let from = match read_bound(&q.available_from) {
        Ok(v) => v,
        Err(e) => return Err(e),
    };
    let to = match read_bound(&q.available_to) {
        Ok(v) => v,
        Err(e) => return Err(e),
    };
    let categories = match read_ids(&q.categories) {
        Ok(v) => v,
        Err(e) => return Err(e),
    };
    let tags = match read_ids(&q.tags) {
        Ok(v) => v,
        Err(e) => return Err(e),
    };
    Ok(assemble_plan(q, from, to, categories, tags))
}

/// The query of a comparison request.
#[derive(Clone, Debug)]
pub struct CompareQuery {
    /// Comma-separated service ids.
    pub ids: String,
}

/// The services a comparison asks for: the ids of the comma-separated list,
/// which must hold one to three of them; anything else is a bad request.
pub fn compare_ids(query: &CompareQuery) -> (r: Result<Vec<u128>, Status>)
    ensures
        match ids_of(kept_ids(split_on(query.ids@, ','))) {
            Some(v) => if 1 <= v.len() <= 3 {
                r matches Ok(w) && w@ == v
            } else {
                r == Err::<Vec<u128>, Status>(Status::BadRequest)
            },
            None => r == Err::<Vec<u128>, Status>(Status::BadRequest),
        },
{
    let v = match parse_uuid_csv(query.ids.as_str()) {
        Ok(v) => v,
        Err(e) => return Err(e),
    };
    if v.len() == 0 || v.len() > 3 {
        return Err(Status::BadRequest);
    }
    Ok(v)
}

/// An availability window must end after it starts.
pub fn check_availability_window(start: Instant, end: Instant) -> (r: Result<(), Status>)
    ensures
        before(start, end) ==> r is Ok,
        !before(start, end) ==> r == Err::<(), Status>(Status::BadRequest),
{
    if start.0 < end.0 || (start.0 == end.0 && start.1 < end.1) {
        Ok(())
    } else {
        Err(Status::BadRequest)
    }
}

/// Which fields of a service a partial update sets.
#[derive(Clone, Copy, Debug)]
pub struct ServiceUpdateFields {
    pub name: bool,
    pub description: bool,
    pub price: bool,
    pub rating: bool,
    pub coverage_radius_miles: bool,
    pub zip_code: bool,
}

/// The columns an update sets, in the order the statement names them.
pub open spec fn update_columns(f: ServiceUpdateFields) -> Seq<Seq<char>> {
    (if f.name { seq!["name"@] } else { Seq::empty() }) + (if f.description {
        seq!["description"@]
    } else {
        Seq::empty()
    }) + (if f.price { seq!["price"@] } else { Seq::empty() }) + (if f.rating {
        seq!["rating"@]
    } else {
        Seq::empty()
    }) + (if f.coverage_radius_miles {
        seq!["coverage_radius_miles"@]
    } else {
        Seq::empty()
    }) + (if f.zip_code { seq!["zip_code"@] } else { Seq::empty() })
}

/// The columns a service update sets, in statement order; none means the
/// update has nothing to do (answered with no content).
pub fn service_update_columns(f: ServiceUpdateFields) -> (r: Vec<&'static str>)
    ensures
        r@.map_values(|c: &'static str| c@) == update_columns(f),
{
    let mut r: Vec<&'static str> = Vec::new();
    if f.name {
        r.push("name");
    }
    if f.description {
        r.push("description");
    }
    if f.price {
        r.push("price");
    }
    if f.rating {
        r.push("rating");
    }
    if f.coverage_radius_miles {
        r.push("coverage_radius_miles");
    }
    if f.zip_code {
        r.push("zip_code");
    }
    proof {
        assert(r@.map_values(|c: &'static str| c@) =~= update_columns(f));
    }
    r
}

} // verus!
