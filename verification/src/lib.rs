//! Decision logic of a dynamic-DNS updater that keeps AAAA records at
//! Cloudflare pointed at this host's current IPv6 address.
//!
//! The crate performs no I/O. Every network exchange, timer and store access
//! is described as an action for the caller to carry out; the caller reports
//! what happened and the library decides what comes next.

pub mod api;
pub mod config;
pub mod json;
pub mod services;
pub mod text;
pub mod utils;
