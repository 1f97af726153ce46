//! Validation, session and token helpers, and the audit-log builder.

pub mod validators;
pub mod session;
pub mod logs;
