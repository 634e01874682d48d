//! Orchestration core for a pool of LLM-backed worker agents.
//!
//! The crate holds the scheduler that hands pending tasks to idle agents,
//! the reconciliation of completed requests, the merge policy for state
//! mirrored from peers, and the review queue that gates proposed edits.
//! All network and clock access is left to the host: it passes events and
//! timestamps in and carries requests out.

pub mod agent;
pub mod collab;
pub mod dispatch;
pub mod ids;
pub mod labels;
pub mod laws;
pub mod merge;
pub mod plan;
pub mod queue;
pub mod reconcile;
pub mod requests;
pub mod response;
pub mod review;
pub mod schedule;
pub mod session;
pub mod sync;
pub mod system;
pub mod text;
pub mod workspace;
