//! Helpers around the host itself: its address and its log files.

pub mod logger;
pub mod network;
