//! Audit log rows of the `user` schema generation.

use vstd::prelude::*;
use crate::clock::UtcTime;
use crate::models::user::enums::{LogAction, LogEntity};
use crate::models::users::log::IpAddress;

verus! {

/// A row of the audit log; JSON values are held as their JSON text.
pub struct Log {
    pub id: u128,
    pub user_id: Option<u128>,
    pub action_type: LogAction,
    pub entity_type: LogEntity,
    pub entity_id: Option<u128>,
    pub old_values: Option<String>,
    pub new_values: Option<String>,
    pub ip_address: Option<IpAddress>,
    pub user_agent: Option<String>,
    pub error_message: Option<String>,
    pub created_at: UtcTime,
}

} // verus!
