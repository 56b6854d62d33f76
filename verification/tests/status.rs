use ops_hub::status::{check_compare_selection, http_err, login_failure, Status};

#[test]
fn http_err_names_the_code() {
    assert_eq!(http_err(404), "HTTP 404");
    assert_eq!(http_err(0), "HTTP 0");
    assert_eq!(http_err(65535), "HTTP 65535");
}

#[test]
fn login_statuses_map_to_messages() {
    assert_eq!(login_failure(401).as_deref(), Some("Invalid username or password"));
    assert_eq!(
        login_failure(423).as_deref(),
        Some("Account locked. Try again in 15 minutes.")
    );
    assert_eq!(login_failure(200), None);
    assert_eq!(login_failure(204), None);
    assert_eq!(login_failure(299), None);
    assert_eq!(login_failure(300).as_deref(), Some("Login failed (300)"));
    assert_eq!(login_failure(500).as_deref(), Some("Login failed (500)"));
    assert_eq!(login_failure(403).as_deref(), Some("Login failed (403)"));
}

#[test]
fn compare_selection_bounds() {
    assert_eq!(
        check_compare_selection(&[]),
        Err("Select at least one service".to_string())
    );
    let four: Vec<String> = vec!["a".into(), "b".into(), "c".into(), "d".into()];
    assert_eq!(
        check_compare_selection(&four),
        Err("Compare at most 3 services".to_string())
    );
    assert_eq!(check_compare_selection(&four[..3]), Ok(()));
    assert_eq!(check_compare_selection(&four[..1]), Ok(()));
}

#[test]
fn status_codes() {
    assert_eq!(Status::BadRequest.code(), 400);
    assert_eq!(Status::Gone.code(), 410);
    assert_eq!(Status::Locked.code(), 423);
    assert_eq!(Status::TooManyRequests.code(), 429);
    assert_eq!(Status::NoContent.code(), 204);
}
