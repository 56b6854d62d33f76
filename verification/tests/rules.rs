use ops_hub::access::{
    dashboard_visible, owner_or_admin, require_any, require_role, work_order_visible,
};
use ops_hub::account::{
    login_verdict, register_verdict, rename_changes, role_change_guard, status_change_guard,
    validate_name, validate_sensitive_value, validate_username, UpdateSensitiveRequest,
    UpdateStatusRequest,
};
use ops_hub::auth_state::Role;
use ops_hub::face::{
    check_liveness_challenge, face_image_extension, parse_resolution, RecordLivenessRequest,
};
use ops_hub::files::attachment_extension;
use ops_hub::reviews::{
    check_daily_cap, check_rating, check_upload_bytes, completion_verdict, follow_up_verdict,
    image_upload_verdict, initial_review_verdict, ImageKind, WorkOrderRow, LATEST_TIMESTAMP,
    MAX_IMAGE_SIZE_BYTES,
};
use ops_hub::status::Status;

const DAY: i64 = 86400;

fn order(requester: u128, status: &str, completed: Option<(i64, u32)>) -> Option<WorkOrderRow> {
    Some(WorkOrderRow {
        requester,
        status: status.into(),
        completed_at: completed,
    })
}

#[test]
fn ratings_and_daily_cap() {
    assert_eq!(check_rating(0), Err(Status::BadRequest));
    assert_eq!(check_rating(1), Ok(()));
    assert_eq!(check_rating(5), Ok(()));
    assert_eq!(check_rating(6), Err(Status::BadRequest));
    assert_eq!(check_daily_cap(2), Ok(()));
    assert_eq!(check_daily_cap(3), Err(Status::TooManyRequests));
}

#[test]
fn initial_review_rules_in_order() {
    let now = (1_000 * DAY, 0);
    let done = Some((now.0 - DAY, 0));
    let ok = order(7, "completed", done);
    assert_eq!(initial_review_verdict(7, 4, &ok, false, now, 0), Ok(()));
    assert_eq!(initial_review_verdict(7, 0, &None, true, now, 9), Err(Status::BadRequest));
    assert_eq!(initial_review_verdict(7, 4, &None, false, now, 0), Err(Status::NotFound));
    assert_eq!(initial_review_verdict(8, 4, &ok, false, now, 0), Err(Status::Forbidden));
    assert_eq!(
        initial_review_verdict(7, 4, &order(7, "pending", done), false, now, 0),
        Err(Status::BadRequest)
    );
    assert_eq!(
        initial_review_verdict(7, 4, &order(7, "completed", None), false, now, 0),
        Err(Status::BadRequest)
    );
    assert_eq!(initial_review_verdict(7, 4, &ok, true, now, 0), Err(Status::Conflict));
    assert_eq!(initial_review_verdict(7, 4, &ok, false, now, 3), Err(Status::TooManyRequests));
}

#[test]
fn review_window_is_fourteen_days_inclusive() {
    let completed = (500 * DAY, 250);
    let o = order(1, "completed", Some(completed));
    let edge = (completed.0 + 14 * DAY, 250);
    assert_eq!(initial_review_verdict(1, 3, &o, false, edge, 0), Ok(()));
    let just_after = (completed.0 + 14 * DAY, 251);
    assert_eq!(initial_review_verdict(1, 3, &o, false, just_after, 0), Err(Status::Gone));
    let next_second = (completed.0 + 14 * DAY + 1, 0);
    assert_eq!(initial_review_verdict(1, 3, &o, false, next_second, 0), Err(Status::Gone));
}

#[test]
fn follow_up_rules() {
    let now = (100 * DAY, 0);
    let o = order(2, "completed", Some((99 * DAY, 0)));
    assert_eq!(follow_up_verdict(2, 5, &o, Some(42), false, now, 0), Ok(42));
    assert_eq!(follow_up_verdict(2, 5, &o, None, false, now, 0), Err(Status::Conflict));
    assert_eq!(follow_up_verdict(2, 5, &o, Some(42), true, now, 0), Err(Status::Conflict));
    assert_eq!(follow_up_verdict(3, 5, &o, Some(42), false, now, 0), Err(Status::Forbidden));
    assert_eq!(follow_up_verdict(2, 9, &o, Some(42), false, now, 0), Err(Status::BadRequest));
    let late = (200 * DAY, 0);
    assert_eq!(follow_up_verdict(2, 5, &o, Some(42), false, late, 0), Err(Status::Gone));
    assert_eq!(
        follow_up_verdict(2, 5, &o, Some(42), false, now, 5),
        Err(Status::TooManyRequests)
    );
}

#[test]
fn latest_timestamp_is_chronos_last_second() {
    assert_eq!(
        chrono::NaiveDateTime::MAX.and_utc().timestamp(),
        LATEST_TIMESTAMP
    );
}

#[test]
fn image_upload_rules() {
    let jpg = Some(ImageKind::Jpeg);
    assert_eq!(
        image_upload_verdict(1, Role::Requester, Some(1), 0, 10, jpg),
        Ok(("image/jpeg", "jpg"))
    );
    assert_eq!(
        image_upload_verdict(1, Role::Requester, Some(1), 4, MAX_IMAGE_SIZE_BYTES, Some(ImageKind::Png)),
        Ok(("image/png", "png"))
    );
    assert_eq!(
        image_upload_verdict(1, Role::Requester, None, 0, 10, jpg),
        Err(Status::NotFound)
    );
    assert_eq!(
        image_upload_verdict(1, Role::Requester, Some(2), 0, 10, jpg),
        Err(Status::Forbidden)
    );
    assert_eq!(
        image_upload_verdict(1, Role::Administrator, Some(2), 0, 10, jpg),
        Ok(("image/jpeg", "jpg"))
    );
    assert_eq!(
        image_upload_verdict(1, Role::Requester, Some(1), 5, 10, jpg),
        Err(Status::Conflict)
    );
    assert_eq!(
        image_upload_verdict(1, Role::Requester, Some(1), 0, 0, jpg),
        Err(Status::PayloadTooLarge)
    );
    assert_eq!(
        image_upload_verdict(1, Role::Requester, Some(1), 0, 2 * 1024 * 1024 + 1, jpg),
        Err(Status::PayloadTooLarge)
    );
    assert_eq!(
        image_upload_verdict(1, Role::Requester, Some(1), 0, 10, Some(ImageKind::Other)),
        Err(Status::UnsupportedMediaType)
    );
    assert_eq!(
        image_upload_verdict(1, Role::Requester, Some(1), 0, 10, None),
        Err(Status::UnsupportedMediaType)
    );
    assert_eq!(check_upload_bytes(0), Err(Status::BadRequest));
    assert_eq!(check_upload_bytes(1), Ok(()));
}

#[test]
fn completing_orders() {
    assert_eq!(completion_verdict("completed"), Err(Status::Conflict));
    assert_eq!(completion_verdict("cancelled"), Err(Status::BadRequest));
    assert_eq!(completion_verdict("pending"), Ok(()));
    assert_eq!(completion_verdict("in_progress"), Ok(()));
}

#[test]
fn role_guards() {
    assert_eq!(require_role(Role::Administrator, Role::Administrator), Ok(()));
    assert_eq!(require_role(Role::Mentor, Role::Administrator), Err(Status::Forbidden));
    let mgmt = [Role::Administrator, Role::WarehouseManager];
    assert_eq!(require_any(Role::WarehouseManager, &mgmt), Ok(()));
    assert_eq!(require_any(Role::Requester, &mgmt), Err(Status::Forbidden));
    assert_eq!(require_any(Role::Requester, &[]), Err(Status::Forbidden));
}

#[test]
fn ownership_rules() {
    assert_eq!(owner_or_admin(1, Role::Intern, 1), Ok(()));
    assert_eq!(owner_or_admin(1, Role::Intern, 2), Err(Status::Forbidden));
    assert_eq!(owner_or_admin(1, Role::Administrator, 2), Ok(()));
    assert_eq!(work_order_visible(1, Role::Requester, 1), Ok(()));
    assert_eq!(work_order_visible(1, Role::ServiceManager, 2), Ok(()));
    assert_eq!(work_order_visible(1, Role::Mentor, 2), Err(Status::Forbidden));
    assert_eq!(dashboard_visible(1, Role::Intern, 1), Ok(()));
    assert_eq!(dashboard_visible(1, Role::Mentor, 2), Ok(()));
    assert_eq!(dashboard_visible(1, Role::Intern, 2), Err(Status::Forbidden));
}

#[test]
fn sign_in_and_bootstrap() {
    assert_eq!(login_verdict(false, true, false, true), Err(Status::Unauthorized));
    assert_eq!(login_verdict(true, false, true, false), Err(Status::Forbidden));
    assert_eq!(login_verdict(true, true, true, false), Err(Status::Locked));
    assert_eq!(login_verdict(true, true, false, false), Err(Status::Unauthorized));
    assert_eq!(login_verdict(true, true, false, true), Ok(()));
    assert_eq!(register_verdict(1, true), Err(Status::Forbidden));
    assert_eq!(register_verdict(0, false), Err(Status::BadRequest));
    assert_eq!(register_verdict(0, true), Ok(()));
}

#[test]
fn user_administration_guards() {
    assert_eq!(validate_username("alice"), Ok(()));
    assert_eq!(validate_username("   "), Err(Status::BadRequest));
    assert_eq!(validate_username(&"é".repeat(64)), Ok(()));
    assert_eq!(validate_username(&"é".repeat(65)), Err(Status::BadRequest));
    let sensitive = |v: String| UpdateSensitiveRequest { value: v };
    assert_eq!(validate_sensitive_value(&sensitive("a".repeat(128))), Ok(()));
    assert_eq!(validate_sensitive_value(&sensitive("é".repeat(65))), Err(Status::BadRequest));
    assert_eq!(validate_sensitive_value(&sensitive(" \t".into())), Err(Status::BadRequest));
    assert_eq!(role_change_guard(1, 1, Role::Mentor, 0), Err(Status::Conflict));
    assert_eq!(role_change_guard(1, 1, Role::Mentor, 1), Ok(()));
    assert_eq!(role_change_guard(1, 1, Role::Administrator, 0), Ok(()));
    assert_eq!(role_change_guard(1, 2, Role::Mentor, 0), Ok(()));
    let off = UpdateStatusRequest { is_active: false };
    let on = UpdateStatusRequest { is_active: true };
    assert_eq!(status_change_guard(1, 1, &off), Err(Status::Conflict));
    assert_eq!(status_change_guard(1, 1, &on), Ok(()));
    assert_eq!(status_change_guard(1, 2, &off), Ok(()));
}

#[test]
fn record_names() {
    assert_eq!(validate_name("  North hub "), Ok("North hub".to_string()));
    assert_eq!(validate_name(" \n "), Err(Status::BadRequest));
    assert_eq!(validate_name(&"x".repeat(100)), Ok("x".repeat(100)));
    assert_eq!(validate_name(&format!(" {} ", "x".repeat(101))), Err(Status::BadRequest));
    assert!(!rename_changes("Dock", "Dock"));
    assert!(rename_changes("Dock", "dock"));
}

#[test]
fn face_resolution_and_liveness() {
    assert_eq!(parse_resolution("640x480"), Some((640, 480)));
    assert_eq!(parse_resolution("+1x+2"), Some((1, 2)));
    assert_eq!(parse_resolution("640X480"), None);
    assert_eq!(parse_resolution("640x480x3"), None);
    assert_eq!(parse_resolution("x480"), None);
    assert_eq!(parse_resolution("4294967295x1"), Some((4294967295, 1)));
    assert_eq!(parse_resolution("4294967296x1"), None);
    let req = |c: &str| RecordLivenessRequest {
        challenge: c.to_string(),
        passed: true,
        notes: None,
    };
    for c in ["turn_left", "turn_right", "blink", "nod", "smile", "tilt"] {
        assert_eq!(check_liveness_challenge(&req(c)), Ok(()));
    }
    assert_eq!(check_liveness_challenge(&req("wink")), Err(Status::BadRequest));
    assert_eq!(check_liveness_challenge(&req("Blink")), Err(Status::BadRequest));
}

#[test]
fn attachment_extensions() {
    assert_eq!(attachment_extension(Some("report.pdf")), "pdf");
    assert_eq!(attachment_extension(Some("a.tar.gz")), "gz");
    assert_eq!(attachment_extension(Some("noext")), "bin");
    assert_eq!(attachment_extension(Some("trailing.")), "");
    assert_eq!(attachment_extension(None), "bin");
}

#[test]
fn face_images_are_jpeg_or_png() {
    assert_eq!(face_image_extension(Some(ImageKind::Jpeg)), Ok("jpg"));
    assert_eq!(face_image_extension(Some(ImageKind::Png)), Ok("png"));
    assert_eq!(face_image_extension(Some(ImageKind::Other)), Err(Status::UnsupportedMediaType));
    assert_eq!(face_image_extension(None), Err(Status::UnsupportedMediaType));
}
