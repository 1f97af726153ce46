//! The request handlers, as state machines over database and crypto actions.

pub mod auth;
pub mod flow;
pub mod user;
pub mod users;
