//! Blockchain query aggregation layer for a read-only explorer API.
//!
//! The crate turns paged list requests into ordered sequences of chain
//! slots, tolerates missing slots and partial upstream failures, keeps
//! the caller-visible ordering guarantees, and normalizes raw chain
//! payloads into stable view-model records. Network I/O itself lives in
//! the host process; everything here is the decision and shaping logic,
//! verified.

pub mod accounts;
pub mod address;
pub mod cache;
pub mod envelope;
pub mod error;
pub mod ids;
pub mod models;
pub mod normalize;
pub mod params;
pub mod planner;
pub mod pool;
pub mod retry;
pub mod search;
pub mod stats;
