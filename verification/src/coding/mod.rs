//! Coding integration: sessions of the coding assistant and access to the API.

pub mod manager;
pub mod session;
pub mod types;
