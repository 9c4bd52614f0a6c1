//! Media server management: Jellyfin replies, play times and module status.

pub mod jellyfin;
pub mod manager;
pub mod types;
