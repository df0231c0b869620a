//! Supervises a child process and ends it when the host's free physical
//! memory drops strictly below a configured threshold.
//!
//! The decision logic lives here, verified: the threshold comparison, the
//! poll-loop state machine, the validated configuration, and the rendering
//! of the informational report lines. The surrounding binary spawns the
//! child, samples memory once per tick, performs the actions the state
//! machine asks for, and collects the child's final status.

pub mod config;
pub mod memory;
pub mod report;
pub mod supervisor;
