use ops_hub::api_paths::{
    bin_history, board_moderator, board_moderators, board_posts, board_rules, board_team,
    board_teams, intern_dashboard, report_approve, report_attachments, report_comments,
    review_images, review_tag_assign, service_by_id, service_compare, service_reputation,
    service_reviews, services_list, warehouse_history, work_order_by_id, work_order_complete,
    work_order_follow_up, zone_history,
};

#[test]
fn service_paths_match_backend_routes() {
    assert_eq!(service_by_id("abc"), "/api/services/abc");
    assert_eq!(service_reviews("abc"), "/api/services/abc/reviews");
    assert_eq!(service_reputation("abc"), "/api/services/abc/reputation");
    assert_eq!(
        service_compare(&["a".into(), "b".into()]),
        "/api/services/compare?ids=a,b"
    );
}

#[test]
fn work_order_paths_match_backend_routes() {
    assert_eq!(work_order_by_id("w"), "/api/work-orders/w");
    assert_eq!(work_order_complete("w"), "/api/work-orders/w/complete");
    assert_eq!(
        work_order_follow_up("w"),
        "/api/work-orders/w/follow-up-review"
    );
}

#[test]
fn review_paths_match_backend_routes() {
    assert_eq!(review_images("r"), "/api/reviews/r/images");
    assert_eq!(review_tag_assign("r"), "/api/reviews/r/tags");
}

#[test]
fn warehouse_history_paths_include_bins() {
    assert_eq!(warehouse_history("w"), "/api/warehouses/w/history");
    assert_eq!(zone_history("z"), "/api/warehouse-zones/z/history");
    assert_eq!(bin_history("b"), "/api/bins/b/history");
}

#[test]
fn intern_and_report_paths_match_backend_routes() {
    assert_eq!(intern_dashboard("u"), "/api/interns/u/dashboard");
    assert_eq!(report_comments("r"), "/api/reports/r/comments");
    assert_eq!(report_approve("r"), "/api/reports/r/approve");
    assert_eq!(report_attachments("r"), "/api/reports/r/attachments");
}

#[test]
fn board_paths_match_backend_routes() {
    assert_eq!(board_posts("b"), "/api/boards/b/posts");
    assert_eq!(board_rules("b"), "/api/boards/b/rules");
    assert_eq!(board_moderators("b"), "/api/boards/b/moderators");
    assert_eq!(board_moderator("b", "u"), "/api/boards/b/moderators/u");
    assert_eq!(board_teams("b"), "/api/boards/b/teams");
    assert_eq!(board_team("b", "t"), "/api/boards/b/teams/t");
}

#[test]
fn search_endpoint_is_stable() {
    assert_eq!(services_list(), "/api/services/search");
}

#[test]
fn compare_path_with_no_ids_and_one_id() {
    assert_eq!(service_compare(&[]), "/api/services/compare?ids=");
    assert_eq!(service_compare(&["x".into()]), "/api/services/compare?ids=x");
    assert_eq!(
        service_compare(&["a".into(), "".into(), "c".into()]),
        "/api/services/compare?ids=a,,c"
    );
}

#[test]
fn ids_with_unicode_are_kept_verbatim() {
    assert_eq!(service_by_id("é/ü"), "/api/services/é/ü");
}
