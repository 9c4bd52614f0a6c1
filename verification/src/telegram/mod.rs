//! The Telegram bot: who may use it, what its commands ask for, and the texts it answers with.

pub mod assistant;
pub mod auth;
pub mod commands;
pub mod reply;
pub mod services;
pub mod upkeep;
