//! Shapes of the management API's requests and responses.

pub mod handlers;
