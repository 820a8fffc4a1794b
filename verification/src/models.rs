//! Stable view-model records served to API callers.
//!
//! Every record here either came whole from a successful upstream
//! read or is absent; the normalizer never passes a zero-filled
//! placeholder off as real data. Chain state is immutable once
//! finalized, so these are plain values, read and cached transiently,
//! never mutated.

use vstd::prelude::*;

verus! {

/// One produced block of the chain, keyed by its slot.
#[derive(Clone, Debug)]
pub struct Block {
    pub block_number: i64,
    pub slot: i64,
    /// Unix seconds; 0 where the upstream reported no timestamp.
    pub timestamp: i64,
    /// Account identifier of the first reward record, or empty.
    pub leader: String,
    pub transactions_count: i32,
    pub blockhash: Option<String>,
    pub parent_slot: Option<i64>,
    pub previous_blockhash: Option<String>,
}

/// One finalized transaction, keyed by its signature.
#[derive(Clone, Debug)]
pub struct Transaction {
    pub signature: String,
    pub block_number: i64,
    pub slot: i64,
    /// Unix seconds; 0 where the upstream reported no timestamp.
    pub timestamp: i64,
    /// Fee in the chain's smallest unit; 0 where metadata was absent.
    pub fee: i64,
    /// `"success"` when the execution-error field was absent,
    /// `"failed"` otherwise.
    pub status: String,
    pub signer: String,
}

/// Network-wide statistics snapshot.
///
/// `tps` and `total_transactions` are estimates, not exact counts.
/// Progress through the epoch is carried in hundredths of a percent
/// (0 ..= 10000) so the record stays in exact integers; the HTTP
/// layer divides by 100 for display.
#[derive(Clone, Copy, Debug)]
pub struct NetworkStats {
    pub slot: i64,
    pub block_height: i64,
    /// Estimated transactions per second.
    pub tps: i64,
    /// Approximate lifetime transaction count.
    pub total_transactions: i64,
    /// Current epoch, or 0 when epoch info was unavailable.
    pub epoch: i64,
    /// Epoch progress in hundredths of a percent, clamped to
    /// 0 ..= 10000; 0 when epoch info was unavailable.
    pub epoch_progress_hundredths: u64,
}

} // verus!
