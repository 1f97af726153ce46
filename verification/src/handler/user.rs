//! Handlers of the `/api/user` routes.

pub mod me;
