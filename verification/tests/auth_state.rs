use ops_hub::auth_state::{AuthState, Role, SessionUser, STORAGE_KEY};

fn sample_user() -> SessionUser {
    SessionUser {
        id: "00000000-0000-0000-0000-000000000001".into(),
        username: "alice".into(),
        role: Role::Administrator,
    }
}

#[test]
fn default_is_logged_out() {
    let s = AuthState::default();
    assert!(!s.is_logged_in());
    assert!(s.bearer_header().is_none());
}

#[test]
fn both_token_and_user_required_for_logged_in() {
    let mut s = AuthState::default();
    s.token = Some("t".into());
    assert!(!s.is_logged_in(), "token alone is not enough");
    s.token = None;
    s.user = Some(sample_user());
    assert!(!s.is_logged_in(), "user alone is not enough");
    s.token = Some("t".into());
    assert!(s.is_logged_in());
}

#[test]
fn bearer_header_formats_correctly() {
    let s = AuthState {
        token: Some("abc123".into()),
        user: Some(sample_user()),
    };
    assert_eq!(s.bearer_header().as_deref(), Some("Bearer abc123"));
}

#[test]
fn storage_key_is_stable() {
    assert_eq!(STORAGE_KEY, "fsh_auth");
}

#[test]
fn bearer_header_needs_only_the_token() {
    let s = AuthState {
        token: Some("".into()),
        user: None,
    };
    assert_eq!(s.bearer_header().as_deref(), Some("Bearer "));
    assert!(!s.is_logged_in());
}
