use ops_hub::api_paths::{
    bin_history, board_posts, board_rules, board_team, intern_dashboard, report_approve,
    report_attachments, report_comments, review_images, review_tag_assign, service_reputation,
    service_reviews, warehouse_history, work_order_by_id, work_order_complete,
    work_order_follow_up, zone_history,
};
use ops_hub::auth_state::{AuthState, Role, SessionUser};
use ops_hub::nav::{menu_for, NavItem};
use ops_hub::rating::{clamp_rating, parse_rating};
use ops_hub::route::{post_login_redirect, ADMIN, HOME, WORK_ORDERS};
use ops_hub::search::{build_search_path, SearchParams};
use ops_hub::tag_selection::toggle_tag;

#[test]
fn auth_state_workflow_login_logout() {
    let mut state = AuthState::default();
    assert!(!state.is_logged_in());

    state.token = Some("t".into());
    state.user = Some(SessionUser {
        id: "id".into(),
        username: "u".into(),
        role: Role::Administrator,
    });
    assert!(state.is_logged_in());
    assert_eq!(state.bearer_header().as_deref(), Some("Bearer t"));

    let fresh = AuthState::default();
    assert!(!fresh.is_logged_in());
}

#[test]
fn unauthenticated_request_for_admin_page_redirects_back_after_login() {
    assert_eq!(post_login_redirect(ADMIN), Some(ADMIN));
    assert_eq!(post_login_redirect(WORK_ORDERS), Some(WORK_ORDERS));
    assert_eq!(post_login_redirect("/login"), None);
}

#[test]
fn role_gated_nav_is_consistent_across_roles() {
    for role in [Role::Requester, Role::ServiceManager, Role::Administrator] {
        let m = menu_for(role);
        assert!(
            m.contains(&NavItem::WorkOrders),
            "{role:?} needs WorkOrders"
        );
    }
    for role in [Role::Intern, Role::Mentor, Role::Administrator] {
        let m = menu_for(role);
        assert!(
            m.contains(&NavItem::Internship),
            "{role:?} needs Internship"
        );
    }
    let mentor = menu_for(Role::Mentor);
    assert!(!mentor.contains(&NavItem::WorkOrders));
}

#[test]
fn catalog_search_workflow_encodes_all_filters() {
    let params = SearchParams {
        q: Some("hvac".into()),
        min_price: Some(format!("{}", 10.0f64)),
        max_price: Some(format!("{}", 250.0f64)),
        min_rating: Some(format!("{}", 4.0f64)),
        user_zip: Some("94110".into()),
        sort: Some("lowest_price".into()),
        ..Default::default()
    };
    let path = build_search_path(&params);
    assert!(path.starts_with("/api/services/search?"));
    for segment in [
        "q=hvac",
        "min_price=10",
        "max_price=250",
        "min_rating=4",
        "user_zip=94110",
        "sort=lowest_price",
    ] {
        assert!(path.contains(segment), "missing `{segment}` in `{path}`");
    }
}

#[test]
fn review_submit_workflow_from_form_state() {
    let rating = parse_rating("  5 ").expect("parse");
    assert_eq!(rating, 5);

    let mut tag_ids: Vec<String> = Vec::new();
    toggle_tag(&mut tag_ids, "tag-1");
    toggle_tag(&mut tag_ids, "tag-2");
    assert_eq!(tag_ids, vec!["tag-1".to_string(), "tag-2".to_string()]);

    toggle_tag(&mut tag_ids, "tag-1");
    assert_eq!(tag_ids, vec!["tag-2".to_string()]);

    assert_eq!(clamp_rating(200), 5);
}

#[test]
fn every_frontend_surface_resolves_to_expected_backend_route() {
    let work_order = "wo-id";
    assert_eq!(work_order_by_id(work_order), "/api/work-orders/wo-id");
    assert_eq!(
        work_order_complete(work_order),
        "/api/work-orders/wo-id/complete"
    );
    assert_eq!(
        work_order_follow_up(work_order),
        "/api/work-orders/wo-id/follow-up-review"
    );

    assert_eq!(review_images("rid"), "/api/reviews/rid/images");
    assert_eq!(review_tag_assign("rid"), "/api/reviews/rid/tags");

    assert_eq!(service_reviews("sid"), "/api/services/sid/reviews");
    assert_eq!(service_reputation("sid"), "/api/services/sid/reputation");

    assert_eq!(bin_history("bid"), "/api/bins/bid/history");
    assert_eq!(zone_history("zid"), "/api/warehouse-zones/zid/history");
    assert_eq!(warehouse_history("wid"), "/api/warehouses/wid/history");

    assert_eq!(intern_dashboard("uid"), "/api/interns/uid/dashboard");
    assert_eq!(report_approve("rid"), "/api/reports/rid/approve");
    assert_eq!(report_comments("rid"), "/api/reports/rid/comments");
    assert_eq!(report_attachments("rid"), "/api/reports/rid/attachments");

    assert_eq!(board_posts("b"), "/api/boards/b/posts");
    assert_eq!(board_rules("b"), "/api/boards/b/rules");
    assert_eq!(board_team("b", "t"), "/api/boards/b/teams/t");

    assert_eq!(post_login_redirect("/foo"), Some(HOME));
}
