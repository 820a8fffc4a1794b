//! Entity normalizer.
//!
//! Maps raw chain payloads — as the upstream node reports them, with
//! optional and heterogeneous fields — into the stable `Block` and
//! `Transaction` view models, applying the documented defaulting
//! rules: a missing block time becomes 0, the leader is the first
//! reward record's account or empty, a transaction without metadata
//! has fee 0 and counts as failed.

use vstd::prelude::*;
use crate::models::{Block, Transaction};

verus! {

/// What the normalizer reads out of one raw block payload.
#[derive(Clone, Debug)]
pub struct RawBlock {
    pub blockhash: String,
    pub previous_blockhash: String,
    pub parent_slot: u64,
    /// Unix seconds, absent for unconfirmed or pruned slots.
    pub block_time: Option<i64>,
    /// Account identifiers of the reward records, in payload order.
    pub reward_addresses: Vec<String>,
    /// Length of the block's transaction list.
    pub transaction_count: usize,
}

/// What the normalizer reads out of one raw transaction payload.
#[derive(Clone, Copy, Debug)]
pub struct RawTransactionMeta {
    /// Fee in the chain's smallest unit.
    pub fee: u64,
    /// Whether the execution-error field was present.
    pub err_present: bool,
}

/// One raw transaction payload: its slot, optional block time, and
/// optional metadata.
#[derive(Clone, Copy, Debug)]
pub struct RawTransaction {
    pub slot: u64,
    pub block_time: Option<i64>,
    pub meta: Option<RawTransactionMeta>,
}

/// The normalized block timestamp: the payload's, defaulted to 0.
pub open spec fn spec_timestamp(block_time: Option<i64>) -> i64 {
    match block_time {
        Option::Some(t) => t,
        Option::None => 0,
    }
}

/// The normalized leader: the first reward record's account
/// identifier, or empty when the rewards list is empty.
pub open spec fn spec_leader(reward_addresses: Seq<String>) -> Seq<char> {
    if reward_addresses.len() > 0 {
        reward_addresses[0]@
    } else {
        Seq::<char>::empty()
    }
}

/// Whether a transaction counts as successful: its metadata is
/// present and carries no execution error.
pub open spec fn spec_tx_success(meta: Option<RawTransactionMeta>) -> bool {
    match meta {
        Option::Some(m) => !m.err_present,
        Option::None => false,
    }
}

/// The normalized fee: the metadata's, defaulted to 0, never absent.
pub open spec fn spec_tx_fee(meta: Option<RawTransactionMeta>) -> int {
    match meta {
        Option::Some(m) => m.fee as int,
        Option::None => 0,
    }
}

/// Normalize one raw block payload fetched for `slot` into the
/// stable `Block` shape.
pub fn normalize_block(slot: u64, raw: RawBlock) -> (b: Block)
    requires
        slot <= i64::MAX,
        raw.parent_slot <= i64::MAX,
        raw.transaction_count <= i32::MAX,
    ensures
        b.block_number == slot as i64,
        b.slot == slot as i64,
        b.timestamp == spec_timestamp(raw.block_time),
        b.leader@ == spec_leader(raw.reward_addresses@),
        b.transactions_count == raw.transaction_count as i32,
        b.blockhash == Some(raw.blockhash),
        b.parent_slot == Some(raw.parent_slot as i64),
        b.previous_blockhash == Some(raw.previous_blockhash),
{
    let timestamp: i64 = match raw.block_time {
        Some(t) => t,
        None => 0,
    };
    let leader: String = if raw.reward_addresses.len() > 0 {
        raw.reward_addresses[0].clone()
    } else {
        String::new()
    };
    Block {
        block_number: slot as i64,
        slot: slot as i64,
        timestamp,
        leader,
        transactions_count: raw.transaction_count as i32,
        blockhash: Some(raw.blockhash),
        parent_slot: Some(raw.parent_slot as i64),
        previous_blockhash: Some(raw.previous_blockhash),
    }
}

/// Normalize one raw transaction payload fetched for `signature`
/// into the stable `Transaction` shape.
pub fn normalize_transaction(signature: String, raw: RawTransaction) -> (t: Transaction)
    requires
        raw.slot <= i64::MAX,
        raw.meta matches Some(m) ==> m.fee <= i64::MAX,
    ensures
        t.signature == signature,
        t.block_number == raw.slot as i64,
        t.slot == raw.slot as i64,
        t.timestamp == spec_timestamp(raw.block_time),
        t.fee == spec_tx_fee(raw.meta),
        spec_tx_success(raw.meta) ==> t.status@ == "success"@,
        !spec_tx_success(raw.meta) ==> t.status@ == "failed"@,
        t.signer@ == Seq::<char>::empty(),
{
    let timestamp: i64 = match raw.block_time {
        Some(t) => t,
        None => 0,
    };
    let fee: i64 = match raw.meta {
        Some(m) => m.fee as i64,
        None => 0,
    };
    let success: bool = match raw.meta {
        Some(m) => !m.err_present,
        None => false,
    };
    let status: String = if success {
        "success".to_owned()
    } else {
        "failed".to_owned()
    };
    Transaction {
        signature,
        block_number: raw.slot as i64,
        slot: raw.slot as i64,
        timestamp,
        fee,
        status,
        signer: String::new(),
    }
}

} // verus!
