//! Models of the `users` schema: enumerations, dietary restrictions and audit log rows.

pub mod dietary_restriction;
pub mod enums;
pub mod log;
