//! Building audit-trail entries for the `users.logs` table.

use vstd::prelude::*;
use crate::models::users::enums::{LogAction, LogEntity};
use crate::models::users::log::{IpAddress, LogEntry};

verus! {

impl LogEntry {
    /// Creates a new log entry for the given action and entity type,
    /// leaving all optional fields unset.
    pub fn new(action_type: LogAction, entity_type: LogEntity) -> (e: LogEntry)
        ensures
            e.action_type == action_type,
            e.entity_type == entity_type,
            e.user_id is None,
            e.entity_id is None,
            e.old_values is None,
            e.new_values is None,
            e.ip_address is None,
            e.error_message is None,
    {
        LogEntry {
            user_id: None,
            action_type,
            entity_type,
            entity_id: None,
            old_values: None,
            new_values: None,
            ip_address: None,
            error_message: None,
        }
    }

    /// Sets the user who performed the action.
    pub fn user_id(self, user_id: u128) -> (e: LogEntry)
        ensures
            e == (LogEntry { user_id: Some(user_id), ..self }),
    {
        LogEntry { user_id: Some(user_id), ..self }
    }

    /// Sets the entity the action was about.
    pub fn entity_id(self, entity_id: u128) -> (e: LogEntry)
        ensures
            e == (LogEntry { entity_id: Some(entity_id), ..self }),
    {
        LogEntry { entity_id: Some(entity_id), ..self }
    }

    /// Sets the values before the action, as JSON text.
    pub fn old_values(self, old_values: String) -> (e: LogEntry)
        ensures
            e == (LogEntry { old_values: Some(old_values), ..self }),
    {
        LogEntry { old_values: Some(old_values), ..self }
    }

    /// Sets the values after the action, as JSON text.
    pub fn new_values(self, new_values: String) -> (e: LogEntry)
        ensures
            e == (LogEntry { new_values: Some(new_values), ..self }),
    {
        LogEntry { new_values: Some(new_values), ..self }
    }

    /// Sets the address the request came from.
    pub fn ip_address(self, ip_address: IpAddress) -> (e: LogEntry)
        ensures
            e == (LogEntry { ip_address: Some(ip_address), ..self }),
    {
        LogEntry { ip_address: Some(ip_address), ..self }
    }

    /// Sets the error message of a failed action.
    pub fn error_message(self, error_message: String) -> (e: LogEntry)
        ensures
            e == (LogEntry { error_message: Some(error_message), ..self }),
    {
        LogEntry { error_message: Some(error_message), ..self }
    }
}

} // verus!
