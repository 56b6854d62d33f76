//! The paths of the frontend's pages, and where a user goes after signing in.

use vstd::prelude::*;
use crate::text::str_eq;

verus! {

pub const LOGIN: &'static str = "/login";

pub const HOME: &'static str = "/";

pub const CATALOG: &'static str = "/catalog";

pub const WORK_ORDERS: &'static str = "/work-orders";

pub const FORUM: &'static str = "/forum";

pub const INTERNSHIP: &'static str = "/internship";

pub const WAREHOUSE: &'static str = "/warehouse";

pub const FACE: &'static str = "/face";

pub const ADMIN: &'static str = "/admin";

/// The pages a signed-in user can be sent back to.
pub open spec fn is_page(p: Seq<char>) -> bool {
    ||| p == HOME@
    ||| p == CATALOG@
    ||| p == WORK_ORDERS@
    ||| p == FORUM@
    ||| p == INTERNSHIP@
    ||| p == WAREHOUSE@
    ||| p == FACE@
    ||| p == ADMIN@
}

/// Where to go after signing in, having come from `from`: nowhere from the
/// sign-in page itself, back to `from` when it is one of the pages, and home
/// for any other path.
pub open spec fn redirect_target(from: Seq<char>) -> Option<Seq<char>> {
    if from == LOGIN@ {
        None
    } else if is_page(from) {
        Some(from)
    } else {
        Some(HOME@)
    }
}

/// The destination after sign-in for a user who came from `from`: `None`
/// from `/login`, `from` itself for a known page, and `/` otherwise.
pub fn post_login_redirect(from: &str) -> (r: Option<&'static str>)
    ensures
        match r {
            Some(t) => redirect_target(from@) == Some(t@),
            None => redirect_target(from@) is None,
        },
        r matches Some(t) ==> t@ != LOGIN@,
{
    proof {
        lemma_pages_are_not_login();
    }
    if str_eq(from, LOGIN) {
        None
    } else if str_eq(from, HOME) {
        Some(HOME)
    } else if str_eq(from, CATALOG) {
        Some(CATALOG)
    } else if str_eq(from, WORK_ORDERS) {
        Some(WORK_ORDERS)
    } else if str_eq(from, FORUM) {
        Some(FORUM)
    } else if str_eq(from, INTERNSHIP) {
        Some(INTERNSHIP)
    } else if str_eq(from, WAREHOUSE) {
        Some(WAREHOUSE)
    } else if str_eq(from, FACE) {
        Some(FACE)
    } else if str_eq(from, ADMIN) {
        Some(ADMIN)
    } else {
        Some(HOME)
    }
}

proof fn lemma_pages_are_not_login()
    ensures
        forall|p: Seq<char>| is_page(p) ==> p != LOGIN@,
        HOME@ != LOGIN@,
        CATALOG@ != LOGIN@,
        WORK_ORDERS@ != LOGIN@,
        FORUM@ != LOGIN@,
        INTERNSHIP@ != LOGIN@,
        WAREHOUSE@ != LOGIN@,
        FACE@ != LOGIN@,
        ADMIN@ != LOGIN@,
{
    reveal_strlit("/login");
    reveal_strlit("/");
    reveal_strlit("/catalog");
    reveal_strlit("/work-orders");
    reveal_strlit("/forum");
    reveal_strlit("/internship");
    reveal_strlit("/warehouse");
    reveal_strlit("/face");
    reveal_strlit("/admin");
    assert(HOME@ == "/"@);
    assert(LOGIN@ == "/login"@);
    assert(CATALOG@ == "/catalog"@);
    assert(WORK_ORDERS@ == "/work-orders"@);
    assert(FORUM@ == "/forum"@);
    assert(INTERNSHIP@ == "/internship"@);
    assert(WAREHOUSE@ == "/warehouse"@);
    assert(FACE@ == "/face"@);
    assert(ADMIN@ == "/admin"@);
    assert(LOGIN@.len() == 6);
    assert(HOME@.len() == 1);
    assert(CATALOG@.len() == 8);
    assert(WORK_ORDERS@.len() == 12);
    assert(INTERNSHIP@.len() == 11);
    assert(WAREHOUSE@.len() == 10);
    assert(FACE@.len() == 5);
    assert(FORUM@[1] != LOGIN@[1]);
    assert(ADMIN@[1] != LOGIN@[1]);
}

/// Signing in never leads back to the sign-in page, so there is no redirect
/// loop; every known page leads back to itself.
pub proof fn redirect_never_loops(from: Seq<char>)
    ensures
        redirect_target(from) matches Some(t) ==> t != LOGIN@,
        is_page(from) ==> redirect_target(from) == Some(from),
{
    lemma_pages_are_not_login();
}

} // verus!
