//! Broker client library for the TW and A-share stock servers.
//!
//! The library holds the request, response and event models, the
//! configuration, and every decision the clients take: URL and header
//! construction, retry and reconnect policy, envelope and error mapping,
//! and event classification.

pub mod auth;
pub mod client;
pub mod config;
pub mod error;
pub mod http;
pub mod json;
pub mod response;
pub mod text;
pub mod time;
pub mod types;

pub mod ws;
