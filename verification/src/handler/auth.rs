//! Handlers of the `/api/auth` routes.

pub mod change_login;
pub mod delete_user;
pub mod login;
pub mod logout;
pub mod password;
pub mod refresh;
pub mod register;
