//! The decisions behind the API's endpoints.

pub mod auth;
pub mod timeframes;
pub mod users;

use crate::db::users::User as DbUser;
use crate::types::{low_byte, role_number, stored_role, Role};
use vstd::prelude::*;

verus! {

/// Whether a stored role number grants administration: its low byte is the
/// number of `Role::Admin`.
pub open spec fn grants_admin(role: i32) -> bool {
    role as u8 == role_number(Role::Admin)
}

/// Whether a request passes the administrators' guard, given the stored
/// user of its session: `None` where the session holds no user id, no
/// database is at hand or the lookup of the user fails.
pub fn admin_guard(user: Option<&DbUser>) -> (b: bool)
    ensures
        b == (user matches Some(u) && grants_admin(u.role)),
{
    match user {
        None => false,
        Some(u) => low_byte(u.role) == Role::Admin.to_u8(),
    }
}

/// The guard admits exactly the users whose stored role decodes to
/// `Role::Admin`; for a row stored with the number of a role, exactly the
/// administrators.
pub proof fn lemma_guard_admits_admins(role_value: i32, role: Role)
    ensures
        grants_admin(role_value) <==> stored_role(role_value) == Some(Role::Admin),
        grants_admin(role_number(role) as i32) <==> role == Role::Admin,
{
}

} // verus!
