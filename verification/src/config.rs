//! The stored configuration and the audit trail.

pub mod database;
