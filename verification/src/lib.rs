//! Coordination core for a fleet of smoothie-making robots.
//!
//! A workflow engine submits tasks; this library decides which idle worker
//! takes a task, what is published to that worker, and how the worker's
//! completion resumes the waiting workflow. All network traffic is left to
//! the caller: every function here maps plain values to plain values, so the
//! protocol's decisions can be stated and proved.

pub mod dispatcher;
pub mod json;
pub mod registry;
pub mod resolver;
pub mod responses;
pub mod selector;
pub mod status;
