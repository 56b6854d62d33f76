//! Who may do what: role guards and the ownership rules of the handlers.

use vstd::prelude::*;
use crate::auth_state::Role;
use crate::status::Status;

verus! {

/// The role must be `required`; otherwise the request is forbidden.
pub fn require_role(role: Role, required: Role) -> (r: Result<(), Status>)
    ensures
        role == required ==> r is Ok,
        role != required ==> r == Err::<(), Status>(Status::Forbidden),
{
    if role == required {
        Ok(())
    } else {
        Err(Status::Forbidden)
    }
}

/// The role must be one of `allowed`; otherwise the request is forbidden.
pub fn require_any(role: Role, allowed: &[Role]) -> (r: Result<(), Status>)
    ensures
        allowed@.contains(role) ==> r is Ok,
        !allowed@.contains(role) ==> r == Err::<(), Status>(Status::Forbidden),
{
    let mut i: usize = 0;
    while i < allowed.len()
        invariant
            i <= allowed@.len(),
            forall|k: int| 0 <= k < i ==> allowed@[k] != role,
        decreases allowed.len() - i,
    {
        if allowed[i] == role {
            return Ok(());
        }
        i = i + 1;
    }
    proof {
        if allowed@.contains(role) {
            let k = choose|k: int| 0 <= k < allowed@.len() && allowed@[k] == role;
            assert(allowed@[k] != role);
        }
    }
    Err(Status::Forbidden)
}

/// The record's owner and administrators may act on it; others are
/// forbidden.
pub fn owner_or_admin(user: u128, role: Role, owner: u128) -> (r: Result<(), Status>)
    ensures
        (owner == user || role == Role::Administrator) ==> r is Ok,
        !(owner == user || role == Role::Administrator) ==> r == Err::<(), Status>(
            Status::Forbidden,
        ),
{
    if owner != user && role != Role::Administrator {
        Err(Status::Forbidden)
    } else {
        Ok(())
    }
}

/// A work order is visible to its requester, administrators and service
/// managers.
pub fn work_order_visible(user: u128, role: Role, requester: u128) -> (r: Result<(), Status>)
    ensures
        (requester == user || role == Role::Administrator || role == Role::ServiceManager) ==> r is Ok,
        !(requester == user || role == Role::Administrator || role == Role::ServiceManager) ==> r
            == Err::<(), Status>(Status::Forbidden),
{
    if requester != user && !(role == Role::Administrator || role == Role::ServiceManager) {
        Err(Status::Forbidden)
    } else {
        Ok(())
    }
}

/// An intern's dashboard is visible to the intern, mentors and
/// administrators.
pub fn dashboard_visible(user: u128, role: Role, intern: u128) -> (r: Result<(), Status>)
    ensures
        (intern == user || role == Role::Mentor || role == Role::Administrator) ==> r is Ok,
        !(intern == user || role == Role::Mentor || role == Role::Administrator) ==> r == Err::<
            (),
            Status,
        >(Status::Forbidden),
{
    if intern != user && !(role == Role::Mentor || role == Role::Administrator) {
        Err(Status::Forbidden)
    } else {
        Ok(())
    }
}

} // verus!
