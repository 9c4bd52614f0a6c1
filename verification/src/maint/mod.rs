//! Self-maintenance: backups, log rotation, update checks and their schedule.

pub mod backup;
pub mod logs;
pub mod manager;
pub mod scheduler;
pub mod types;
pub mod update;
