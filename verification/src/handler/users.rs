//! Handlers of the `users` routes (registration and login without sessions).

pub mod login;
pub mod register;
