//! The reactive control loop: observe, decide, act.

pub mod action;
pub mod decision;
pub mod engine;
pub mod observer;
pub mod policy;
pub mod types;
