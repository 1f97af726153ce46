//! `GET /api/user/me`: who the access token belongs to.

use vstd::prelude::*;
use crate::utils::session::auth::AuthUser;

verus! {

/// The authenticated user's id and role.
pub struct MeResponse {
    pub user_id: u128,
    pub role: String,
}

/// Answers with the id and role of the authenticated user.
pub fn me(auth: AuthUser) -> (r: MeResponse)
    ensures
        r.user_id == auth.user_id,
        r.role == auth.role,
{
    MeResponse { user_id: auth.user_id, role: auth.role }
}

} // verus!
