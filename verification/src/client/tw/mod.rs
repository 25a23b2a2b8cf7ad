//! The Taiwan stock-broker server.

pub mod types;
