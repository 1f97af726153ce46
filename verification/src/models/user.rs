//! Models of the `user` schema generation: enumerations, audit log rows and roles.

pub mod enums;
pub mod log;
pub mod role;
