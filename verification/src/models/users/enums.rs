//! Enumerations of the `users` schema, stored as PostgreSQL enum types.

use vstd::prelude::*;

verus! {

/// Kind of a dietary restriction (`restriction_category`).
#[derive(Debug, Clone, Copy, PartialEq, Eq, Structural)]
pub enum RestrictionCategory {
    Allergy,
    Diet,
}

/// Action recorded in the audit log (`log_action`).
#[derive(Debug, Clone, Copy, PartialEq, Eq, Structural)]
pub enum LogAction {
    Create,
    Delete,
    Login,
    Logout,
    Error,
}

/// Kind of entity an audit log entry is about (`log_entity`).
#[derive(Debug, Clone, Copy, PartialEq, Eq, Structural)]
pub enum LogEntity {
    User,
    Recipe,
    Ingredient,
    Comment,
    Post,
    Friendship,
    Session,
}

} // verus!
