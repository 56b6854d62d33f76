//! One builder per backend endpoint the frontend calls, so that each path is
//! written in a single place.

use vstd::prelude::*;
use crate::text::{join, join_strings, views};

verus! {

/// `head`, then `id`, then `tail`.
fn around(head: &str, id: &str, tail: &str) -> (r: String)
    ensures
        r@ == head@ + id@ + tail@,
{
    let mut s = String::from_str(head);
    s.append(id);
    s.append(tail);
    s
}

/// The catalog search endpoint.
pub fn services_list() -> (r: &'static str)
    ensures
        r@ == "/api/services/search"@,
{
    "/api/services/search"
}

/// `/api/services/{id}`.
pub fn service_by_id(id: &str) -> (r: String)
    ensures
        r@ == "/api/services/"@ + id@,
{
    let mut s = String::from_str("/api/services/");
    s.append(id);
    s
}

/// `/api/services/{id}/reviews`.
pub fn service_reviews(id: &str) -> (r: String)
    ensures
        r@ == "/api/services/"@ + id@ + "/reviews"@,
{
    around("/api/services/", id, "/reviews")
}

/// `/api/services/{id}/reputation`.
pub fn service_reputation(id: &str) -> (r: String)
    ensures
        r@ == "/api/services/"@ + id@ + "/reputation"@,
{
    around("/api/services/", id, "/reputation")
}

/// `/api/services/compare?ids=` followed by the ids joined with commas.
pub fn service_compare(ids: &[String]) -> (r: String)
    ensures
        r@ == "/api/services/compare?ids="@ + join(views(ids@), ","@),
{
    let mut s = String::from_str("/api/services/compare?ids=");
    let j = join_strings(ids, ",");
    s.append(j.as_str());
    s
}

/// `/api/work-orders/{id}`.
pub fn work_order_by_id(id: &str) -> (r: String)
    ensures
        r@ == "/api/work-orders/"@ + id@,
{
    let mut s = String::from_str("/api/work-orders/");
    s.append(id);
    s
}

/// `/api/work-orders/{id}/complete`.
pub fn work_order_complete(id: &str) -> (r: String)
    ensures
        r@ == "/api/work-orders/"@ + id@ + "/complete"@,
{
    around("/api/work-orders/", id, "/complete")
}

/// `/api/work-orders/{id}/follow-up-review`.
pub fn work_order_follow_up(id: &str) -> (r: String)
    ensures
        r@ == "/api/work-orders/"@ + id@ + "/follow-up-review"@,
{
    around("/api/work-orders/", id, "/follow-up-review")
}

/// `/api/reviews/{id}/images`.
pub fn review_images(id: &str) -> (r: String)
    ensures
        r@ == "/api/reviews/"@ + id@ + "/images"@,
{
    around("/api/reviews/", id, "/images")
}

/// `/api/reviews/{id}/tags`.
pub fn review_tag_assign(id: &str) -> (r: String)
    ensures
        r@ == "/api/reviews/"@ + id@ + "/tags"@,
{
    around("/api/reviews/", id, "/tags")
}

/// `/api/boards/{id}/posts`.
pub fn board_posts(id: &str) -> (r: String)
    ensures
        r@ == "/api/boards/"@ + id@ + "/posts"@,
{
    around("/api/boards/", id, "/posts")
}

/// `/api/boards/{id}/rules`.
pub fn board_rules(id: &str) -> (r: String)
    ensures
        r@ == "/api/boards/"@ + id@ + "/rules"@,
{
    around("/api/boards/", id, "/rules")
}

/// `/api/boards/{id}/moderators`.
pub fn board_moderators(id: &str) -> (r: String)
    ensures
        r@ == "/api/boards/"@ + id@ + "/moderators"@,
{
    around("/api/boards/", id, "/moderators")
}

/// `/api/boards/{id}/moderators/{user_id}`.
pub fn board_moderator(id: &str, user_id: &str) -> (r: String)
    ensures
        r@ == "/api/boards/"@ + id@ + "/moderators/"@ + user_id@,
{
    let mut s = around("/api/boards/", id, "/moderators/");
    s.append(user_id);
    s
}

/// `/api/boards/{id}/teams`.
pub fn board_teams(id: &str) -> (r: String)
    ensures
        r@ == "/api/boards/"@ + id@ + "/teams"@,
{
    around("/api/boards/", id, "/teams")
}

/// `/api/boards/{id}/teams/{team_id}`.
pub fn board_team(id: &str, team_id: &str) -> (r: String)
    ensures
        r@ == "/api/boards/"@ + id@ + "/teams/"@ + team_id@,
{
    let mut s = around("/api/boards/", id, "/teams/");
    s.append(team_id);
    s
}

/// `/api/warehouses/{id}/history`.
pub fn warehouse_history(id: &str) -> (r: String)
    ensures
        r@ == "/api/warehouses/"@ + id@ + "/history"@,
{
    around("/api/warehouses/", id, "/history")
}

/// `/api/warehouse-zones/{id}/history`.
pub fn zone_history(id: &str) -> (r: String)
    ensures
        r@ == "/api/warehouse-zones/"@ + id@ + "/history"@,
{
    around("/api/warehouse-zones/", id, "/history")
}

/// `/api/bins/{id}/history`.
pub fn bin_history(id: &str) -> (r: String)
    ensures
        r@ == "/api/bins/"@ + id@ + "/history"@,
{
    around("/api/bins/", id, "/history")
}

/// `/api/interns/{id}/dashboard`.
pub fn intern_dashboard(id: &str) -> (r: String)
    ensures
        r@ == "/api/interns/"@ + id@ + "/dashboard"@,
{
    around("/api/interns/", id, "/dashboard")
}

/// `/api/reports/{id}/comments`.
pub fn report_comments(id: &str) -> (r: String)
    ensures
        r@ == "/api/reports/"@ + id@ + "/comments"@,
{
    around("/api/reports/", id, "/comments")
}

/// `/api/reports/{id}/approve`.
pub fn report_approve(id: &str) -> (r: String)
    ensures
        r@ == "/api/reports/"@ + id@ + "/approve"@,
{
    around("/api/reports/", id, "/approve")
}

/// `/api/reports/{id}/attachments`.
pub fn report_attachments(id: &str) -> (r: String)
    ensures
        r@ == "/api/reports/"@ + id@ + "/attachments"@,
{
    around("/api/reports/", id, "/attachments")
}

} // verus!
