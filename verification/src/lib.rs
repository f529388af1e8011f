//! Supervision of a single long-running server process.
//!
//! The library holds the decisions: when a process may be spawned or killed,
//! which output lines count, and what address the server has advertised. The
//! program around it performs the spawning, killing and reading, and reports
//! back what happened.

pub mod api_manager;
pub mod laws;
pub mod model;
pub mod output;
pub mod pattern;
pub mod status;
