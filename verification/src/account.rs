//! Accounts and named records: sign-in and bootstrap verdicts, the
//! administrator's guard rails on user changes, and the names of teams,
//! warehouses and zones.

use vstd::prelude::*;
use crate::auth_state::Role;
use crate::status::Status;
use crate::text::{blank, chars_of, is_blank, str_eq, string_of, trim_chars, trimmed};

verus! {

/// The verdict on a sign-in attempt, in order: unknown user (unauthorized),
/// deactivated account (forbidden), locked account (locked), wrong password
/// (unauthorized).
pub open spec fn login_outcome(found: bool, active: bool, locked: bool, password_ok: bool) -> Result<
    (),
    Status,
> {
    if !found {
        Err(Status::Unauthorized)
    } else if !active {
        Err(Status::Forbidden)
    } else if locked {
        Err(Status::Locked)
    } else if !password_ok {
        Err(Status::Unauthorized)
    } else {
        Ok(())
    }
}

/// Sign-in rules: an unknown user is unauthorized and a deactivated account
/// forbidden; a locked account is refused as locked whatever the password;
/// a wrong password is unauthorized; and only an existing, active, unlocked
/// account with the right password signs in.
pub proof fn login_laws(found: bool, active: bool, locked: bool, password_ok: bool)
    ensures
        !found ==> login_outcome(found, active, locked, password_ok) == Err::<(), Status>(
            Status::Unauthorized,
        ),
        found && !active ==> login_outcome(found, active, locked, password_ok) == Err::<
            (),
            Status,
        >(Status::Forbidden),
        found && active && locked ==> login_outcome(found, active, locked, password_ok) == Err::<
            (),
            Status,
        >(Status::Locked),
        found && active && locked ==> login_outcome(found, active, locked, true)
            == login_outcome(found, active, locked, false),
        found && active && !locked && !password_ok ==> login_outcome(
            found,
            active,
            locked,
            password_ok,
        ) == Err::<(), Status>(Status::Unauthorized),
        login_outcome(found, active, locked, password_ok) is Ok <==> (found && active && !locked
            && password_ok),
{
}

/// Whether a sign-in succeeds, given whether the user exists, is active, is
/// locked out, and gave the right password.
pub fn login_verdict(found: bool, active: bool, locked: bool, password_ok: bool) -> (r: Result<
    (),
    Status,
>)
    ensures
        r == login_outcome(found, active, locked, password_ok),
        !found ==> r == Err::<(), Status>(Status::Unauthorized),
        found && !active ==> r == Err::<(), Status>(Status::Forbidden),
        found && active && locked ==> r == Err::<(), Status>(Status::Locked),
        found && active && !locked && !password_ok ==> r == Err::<(), Status>(
            Status::Unauthorized,
        ),
        r is Ok <==> (found && active && !locked && password_ok),
{
    if !found {
        Err(Status::Unauthorized)
    } else if !active {
        Err(Status::Forbidden)
    } else if locked {
        Err(Status::Locked)
    } else if !password_ok {
        Err(Status::Unauthorized)
    } else {
        Ok(())
    }
}

/// The bootstrap registration is open only while there is no user
/// (forbidden otherwise) and needs an acceptable password (bad request).
pub fn register_verdict(user_count: i64, password_ok: bool) -> (r: Result<(), Status>)
    ensures
        user_count > 0 ==> r == Err::<(), Status>(Status::Forbidden),
        user_count <= 0 && !password_ok ==> r == Err::<(), Status>(Status::BadRequest),
        user_count <= 0 && password_ok ==> r == Ok::<(), Status>(()),
{
    if user_count > 0 {
        Err(Status::Forbidden)
    } else if !password_ok {
        Err(Status::BadRequest)
    } else {
        Ok(())
    }
}

/// A username must not be blank and must have at most 64 characters.
pub fn validate_username(name: &str) -> (r: Result<(), Status>)
    ensures
        !is_blank(name@) && name@.len() <= 64 ==> r == Ok::<(), Status>(()),
        is_blank(name@) || name@.len() > 64 ==> r == Err::<(), Status>(Status::BadRequest),
{
    if blank(name) || chars_of(name).len() > 64 {
        Err(Status::BadRequest)
    } else {
        Ok(())
    }
}

/// The new sensitive identifier of a user.
#[derive(Clone, Debug)]
pub struct UpdateSensitiveRequest {
    pub value: String,
}

/// The new activation state of a user.
#[derive(Clone, Copy, Debug)]
pub struct UpdateStatusRequest {
    pub is_active: bool,
}

/// A sensitive identifier must not be blank and must take at most 128
/// bytes in UTF-8.
pub fn validate_sensitive_value(req: &UpdateSensitiveRequest) -> (r: Result<(), Status>)
    ensures
        !is_blank(req.value@) && vstd::utf8::encode_utf8(req.value@).len() <= 128 ==> r == Ok::<
            (),
            Status,
        >(()),
        is_blank(req.value@) || vstd::utf8::encode_utf8(req.value@).len() > 128 ==> r == Err::<
            (),
            Status,
        >(Status::BadRequest),
{
    let value = req.value.as_str();
    if blank(value) || value.as_bytes().len() > 128 {
        Err(Status::BadRequest)
    } else {
        Ok(())
    }
}

/// An administrator may not take the administrator role from themselves
/// while no other active administrator exists.
pub fn role_change_guard(actor: u128, target: u128, new_role: Role, other_active_admins: i64) -> (r:
    Result<(), Status>)
    ensures
        (target == actor && new_role != Role::Administrator && other_active_admins == 0) ==> r
            == Err::<(), Status>(Status::Conflict),
        !(target == actor && new_role != Role::Administrator && other_active_admins == 0) ==> r
            == Ok::<(), Status>(()),
{
    if target == actor && new_role != Role::Administrator && other_active_admins == 0 {
        Err(Status::Conflict)
    } else {
        Ok(())
    }
}

/// An administrator may not deactivate their own account.
pub fn status_change_guard(actor: u128, target: u128, req: &UpdateStatusRequest) -> (r: Result<
    (),
    Status,
>)
    ensures
        (target == actor && !req.is_active) ==> r == Err::<(), Status>(Status::Conflict),
        !(target == actor && !req.is_active) ==> r == Ok::<(), Status>(()),
{
    if target == actor && !req.is_active {
        Err(Status::Conflict)
    } else {
        Ok(())
    }
}

/// The name of a team, warehouse or zone, trimmed; it must be non-empty and
/// have at most 100 characters once trimmed.
pub fn validate_name(name: &str) -> (r: Result<String, Status>)
    ensures
        (trimmed(name@).len() == 0 || trimmed(name@).len() > 100) ==> r == Err::<String, Status>(
            Status::BadRequest,
        ),
        !(trimmed(name@).len() == 0 || trimmed(name@).len() > 100) ==> (r matches Ok(s) && s@
            == trimmed(name@)),
{
    let chars = chars_of(name);
    let t = trim_chars(&chars);
    if t.len() == 0 || t.len() > 100 {
        Err(Status::BadRequest)
    } else {
        Ok(string_of(&t))
    }
}

/// A rename to the current name changes nothing (answered with no
/// content); `true` when the names differ and the rename is carried out.
pub fn rename_changes(old_name: &str, new_name: &str) -> (r: bool)
    ensures
        r == (old_name@ != new_name@),
{
    !str_eq(old_name, new_name)
}

} // verus!
