//! The A-share (同花顺) server.

pub mod types;
