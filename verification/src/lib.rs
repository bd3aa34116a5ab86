//! Orchestration core for long-lived automation sessions: message
//! classification, deduplication, per-agent busy state, a session pool with
//! a recycling policy, the resource-actor command protocol, and the
//! dispatch/retry state machine.
//!
//! The surrounding process (polling, HTTP, the browser itself) lives outside
//! this crate; everything here is plain data and verified decision logic.

pub mod actor;
pub mod audit;
pub mod classify;
pub mod dispatch;
pub mod models;
pub mod orchestrator;
pub mod pool;
pub mod state;
pub mod status;
pub mod system;
pub mod text;
