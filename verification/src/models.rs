//! Database row models and the enumerations stored in the database.

pub mod user;
pub mod users;
