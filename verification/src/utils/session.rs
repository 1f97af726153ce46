//! Access and refresh tokens, sessions, and the authenticated-user extractor.

pub mod auth;
pub mod session;
pub mod token;
