//! Server-specific models and decisions.

pub mod a;
pub mod tw;
