//! Audit-log models.
//!
//! [`Log`] represents a row read from `users.logs`, including the fields the
//! database generates (`id`, `created_at`). [`LogEntry`] is the input
//! counterpart used to build a new entry before insertion, without those
//! generated fields. JSON values are held as their JSON text, identifiers as
//! 128-bit numbers.

use vstd::prelude::*;
use crate::clock::UtcTime;
use crate::models::users::enums::{LogAction, LogEntity};

verus! {

/// An IP address: IPv4 as a 32-bit and IPv6 as a 128-bit big-endian number.
#[derive(Debug, Clone, Copy, PartialEq, Eq, Structural)]
pub enum IpAddress {
    V4(u32),
    V6(u128),
}

/// A row read from `users.logs`.
pub struct Log {
    pub id: u128,
    pub user_id: Option<u128>,
    pub action_type: LogAction,
    pub entity_type: LogEntity,
    pub entity_id: Option<u128>,
    pub old_values: Option<String>,
    pub new_values: Option<String>,
    pub ip_address: Option<IpAddress>,
    pub error_message: Option<String>,
    pub created_at: UtcTime,
}

/// An entry to be inserted into `users.logs`.
pub struct LogEntry {
    pub user_id: Option<u128>,
    pub action_type: LogAction,
    pub entity_type: LogEntity,
    pub entity_id: Option<u128>,
    pub old_values: Option<String>,
    pub new_values: Option<String>,
    pub ip_address: Option<IpAddress>,
    pub error_message: Option<String>,
}

} // verus!
