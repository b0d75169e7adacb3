//! The DNS provider client and the reconciliation engine.

pub mod cloudflare;
pub mod config_service;
pub mod exchange;
pub mod monitor_service;
pub mod operation;
pub mod reconcile;
pub mod retry;
