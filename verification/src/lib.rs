//! `scam`: secure copy and move with checksum verification.
//!
//! The library holds the decisions of the tool: command-line grammar,
//! cp/mv-style path resolution, the per-file copy/verify/retry state machine,
//! progress accounting and run totals. The program around it performs the
//! filesystem work and feeds the results back in.

pub mod checksum;
pub mod cli;
pub mod copy;
pub mod engine;
pub mod error;
pub mod metadata;
pub mod model;
pub mod plan;
pub mod progress;
