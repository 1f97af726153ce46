//! Validation of user-supplied e-mail addresses, logins and passwords.

pub mod email;
pub mod login;
pub mod password;
