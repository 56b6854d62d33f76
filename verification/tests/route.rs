use ops_hub::route::{
    post_login_redirect, ADMIN, CATALOG, FACE, FORUM, HOME, INTERNSHIP, LOGIN, WAREHOUSE,
    WORK_ORDERS,
};

#[test]
fn route_paths_are_stable() {
    assert_eq!(LOGIN, "/login");
    assert_eq!(HOME, "/");
    assert_eq!(CATALOG, "/catalog");
    assert_eq!(WORK_ORDERS, "/work-orders");
    assert_eq!(FORUM, "/forum");
    assert_eq!(INTERNSHIP, "/internship");
    assert_eq!(WAREHOUSE, "/warehouse");
    assert_eq!(FACE, "/face");
    assert_eq!(ADMIN, "/admin");
}

#[test]
fn login_is_not_a_post_login_destination() {
    assert_eq!(post_login_redirect(LOGIN), None);
}

#[test]
fn known_routes_roundtrip() {
    assert_eq!(post_login_redirect(FORUM), Some(FORUM));
    assert_eq!(post_login_redirect(ADMIN), Some(ADMIN));
    assert_eq!(post_login_redirect(WORK_ORDERS), Some(WORK_ORDERS));
}

#[test]
fn unknown_route_falls_back_to_home() {
    assert_eq!(post_login_redirect("/nope"), Some(HOME));
}

#[test]
fn every_page_roundtrips_and_near_misses_go_home() {
    for p in [HOME, CATALOG, WORK_ORDERS, FORUM, INTERNSHIP, WAREHOUSE, FACE, ADMIN] {
        assert_eq!(post_login_redirect(p), Some(p));
    }
    assert_eq!(post_login_redirect("/login/"), Some(HOME));
    assert_eq!(post_login_redirect("/Admin"), Some(HOME));
    assert_eq!(post_login_redirect(""), Some(HOME));
}
