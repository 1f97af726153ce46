//! Verified core of the account and session service: input validation,
//! the error model and its HTTP mapping, refresh and access tokens, and the
//! decisions each request handler takes between its database round-trips.

pub mod text;
pub mod encoding;
pub mod errors;
pub mod utils;
pub mod clock;
pub mod models;
pub mod handler;
