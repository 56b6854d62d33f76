//! The signed-in state the frontend keeps in LocalStorage under
//! `STORAGE_KEY`, and the roles a user can hold.

use vstd::prelude::*;

verus! {

/// The LocalStorage key under which the auth state is kept.
pub const STORAGE_KEY: &'static str = "fsh_auth";

/// The roles of the platform.
#[derive(Clone, Copy, Debug, PartialEq, Eq, Structural)]
pub enum Role {
    Administrator,
    Moderator,
    ServiceManager,
    WarehouseManager,
    Mentor,
    Intern,
    Requester,
}

/// The user a session belongs to.
#[derive(Clone, Debug)]
pub struct SessionUser {
    pub id: String,
    pub username: String,
    pub role: Role,
}

/// What the frontend remembers of the sign-in: the bearer token and the user.
#[derive(Clone, Debug)]
pub struct AuthState {
    pub token: Option<String>,
    pub user: Option<SessionUser>,
}

impl Default for AuthState {
    /// The signed-out state: no token, no user.
    fn default() -> (s: Self)
        ensures
            s.token is None,
            s.user is None,
    {
        AuthState { token: None, user: None }
    }
}

impl AuthState {
    /// Signed in means both a token and a user are present.
    pub open spec fn logged_in(&self) -> bool {
        self.token is Some && self.user is Some
    }

    /// Whether both a token and a user are present.
    pub fn is_logged_in(&self) -> (r: bool)
        ensures
            r == self.logged_in(),
    {
        self.token.is_some() && self.user.is_some()
    }

    /// The `Authorization` header value, `Bearer <token>`, when there is a
    /// token.
    pub fn bearer_header(&self) -> (r: Option<String>)
        ensures
            match self.token {
                Some(t) => r matches Some(h) && h@ == "Bearer "@ + t@,
                None => r is None,
            },
    {
        match &self.token {
            Some(t) => {
                let mut h = String::from_str("Bearer ");
                h.append(t.as_str());
                Some(h)
            },
            None => None,
        }
    }
}

} // verus!
