//! The task agent: plans tasks into steps, runs the steps and judges the outcome.

pub mod engine;
pub mod evaluator;
pub mod executor;
pub mod planner;
pub mod task;
pub mod types;
