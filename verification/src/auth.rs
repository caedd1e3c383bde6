//! Role-based access control: permissions, roles with allow/deny rules,
//! audit events, and single-sign-on claims mapping.

pub mod audit;
pub mod error;
pub mod access;
pub mod permission;
pub mod role;
pub mod sso;
