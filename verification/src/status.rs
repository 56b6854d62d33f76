//! HTTP statuses the handlers answer with, and the frontend's reading of
//! failed responses.

use vstd::prelude::*;
use crate::decimal::{decimal, push_decimal};

verus! {

/// The HTTP statuses the backend's handlers answer with.
#[derive(Clone, Copy, Debug, PartialEq, Eq, Structural)]
pub enum Status {
    Created,
    NoContent,
    BadRequest,
    Unauthorized,
    Forbidden,
    NotFound,
    Conflict,
    Gone,
    PayloadTooLarge,
    UnsupportedMediaType,
    UnprocessableEntity,
    Locked,
    TooManyRequests,
    InternalServerError,
}

/// The numeric code of a status.
pub open spec fn status_code(s: Status) -> u16 {
    match s {
        Status::Created => 201,
        Status::NoContent => 204,
        Status::BadRequest => 400,
        Status::Unauthorized => 401,
        Status::Forbidden => 403,
        Status::NotFound => 404,
        Status::Conflict => 409,
        Status::Gone => 410,
        Status::PayloadTooLarge => 413,
        Status::UnsupportedMediaType => 415,
        Status::UnprocessableEntity => 422,
        Status::Locked => 423,
        Status::TooManyRequests => 429,
        Status::InternalServerError => 500,
    }
}

impl Status {
    /// The numeric HTTP code.
    pub fn code(&self) -> (c: u16)
        ensures
            c == status_code(*self),
    {
        match self {
            Status::Created => 201,
            Status::NoContent => 204,
            Status::BadRequest => 400,
            Status::Unauthorized => 401,
            Status::Forbidden => 403,
            Status::NotFound => 404,
            Status::Conflict => 409,
            Status::Gone => 410,
            Status::PayloadTooLarge => 413,
            Status::UnsupportedMediaType => 415,
            Status::UnprocessableEntity => 422,
            Status::Locked => 423,
            Status::TooManyRequests => 429,
            Status::InternalServerError => 500,
        }
    }
}

/// The error text the frontend's HTTP helpers give for a non-success
/// status: `HTTP <code>`.
pub fn http_err(status: u16) -> (r: String)
    ensures
        r@ == "HTTP "@ + decimal(status as nat),
{
    let mut s = String::from_str("HTTP ");
    push_decimal(&mut s, status as u64);
    s
}

/// How the sign-in form reads the status of the login response: `None` for
/// a 2xx (the body then holds the session), otherwise the message shown.
pub open spec fn login_message(status: u16) -> Option<Seq<char>> {
    if status == 401 {
        Some("Invalid username or password"@)
    } else if status == 423 {
        Some("Account locked. Try again in 15 minutes."@)
    } else if 200 <= status < 300 {
        None
    } else {
        Some("Login failed ("@ + decimal(status as nat) + ")"@)
    }
}

/// The sign-in form's reading of the login response status: no message for
/// a 2xx, else the message to show.
pub fn login_failure(status: u16) -> (r: Option<String>)
    ensures
        match login_message(status) {
            Some(m) => r matches Some(s) && s@ == m,
            None => r is None,
        },
{
    if status == 401 {
        Some(String::from_str("Invalid username or password"))
    } else if status == 423 {
        Some(String::from_str("Account locked. Try again in 15 minutes."))
    } else if 200 <= status && status < 300 {
        None
    } else {
        let mut s = String::from_str("Login failed (");
        push_decimal(&mut s, status as u64);
        s.append(")");
        Some(s)
    }
}

/// The check the catalog page makes before asking for a comparison: at
/// least one and at most three services.
pub fn check_compare_selection(ids: &[String]) -> (r: Result<(), String>)
    ensures
        ids@.len() == 0 ==> (r matches Err(m) && m@ == "Select at least one service"@),
        ids@.len() > 3 ==> (r matches Err(m) && m@ == "Compare at most 3 services"@),
        1 <= ids@.len() <= 3 ==> r is Ok,
{
    if ids.len() == 0 {
        return Err(String::from_str("Select at least one service"));
    }
    if ids.len() > 3 {
        return Err(String::from_str("Compare at most 3 services"));
    }
    Ok(())
}

} // verus!
