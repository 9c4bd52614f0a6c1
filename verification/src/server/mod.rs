//! Container management: status types and the rules that decide what the
//! container runtime may be asked.

pub mod manager;
pub mod types;
