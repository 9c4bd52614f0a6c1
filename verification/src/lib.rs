//! Verified core of the Henry home-server daemon.

pub mod agent;
pub mod coding;
pub mod clock;
pub mod config;
pub mod ct;
pub mod daemon;
pub mod float32;
pub mod health;
pub mod http;
pub mod lock;
pub mod maint;
pub mod media;
pub mod numfmt;
pub mod reactive;
pub mod secrets;
pub mod server;
pub mod signals;
pub mod stamps;
pub mod state;
pub mod telegram;
pub mod text;
pub mod tui;
