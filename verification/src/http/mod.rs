//! The HTTP API: authentication and the bodies of its replies.

pub mod api;
pub mod auth;
