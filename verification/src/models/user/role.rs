//! Roles and the assignment of roles to users.

use vstd::prelude::*;
use crate::clock::UtcTime;

verus! {

/// A role a user can hold, identified by its level name (such as `user`).
pub struct Role {
    pub id_role: u128,
    pub level: String,
    pub created_at: Option<UtcTime>,
}

/// The grant of a role to a user.
pub struct UserRole {
    pub id_user_roles: u128,
    pub user_id: u128,
    pub role_id: u128,
    pub granted_at: Option<UtcTime>,
    pub granted_by: Option<u128>,
}

} // verus!
