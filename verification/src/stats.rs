//! Network statistics assembly.
//!
//! Epoch progress is carried exactly, in hundredths of a percent
//! computed by integer division and clamped to 0 ..= 10000; when the
//! epoch info fetch failed the progress is 0, never a guess.

use vstd::prelude::*;
use crate::models::NetworkStats;

verus! {

/// What the stats endpoint reads out of the upstream epoch info.
#[derive(Clone, Copy, Debug)]
pub struct EpochInfo {
    pub epoch: u64,
    pub slot_index: u64,
    pub slots_in_epoch: u64,
}

/// Epoch progress in hundredths of a percent:
/// `slot_index / slots_in_epoch * 100`, clamped to 0 ..= 10000; 0
/// when the info is absent or degenerate (an epoch of no slots).
pub open spec fn spec_epoch_progress_hundredths(info: Option<EpochInfo>) -> int {
    match info {
        Option::None => 0,
        Option::Some(e) => {
            if e.slots_in_epoch == 0 {
                0
            } else {
                let p = (e.slot_index * 10000) / e.slots_in_epoch as int;
                if p > 10000 {
                    10000
                } else {
                    p
                }
            }
        },
    }
}

/// Compute the clamped epoch progress in hundredths of a percent.
pub fn epoch_progress_hundredths(info: Option<EpochInfo>) -> (r: u64)
    ensures
        r == spec_epoch_progress_hundredths(info),
        r <= 10000,
{
    match info {
        None => 0,
        Some(e) => {
            if e.slots_in_epoch == 0 {
                0
            } else {
                let scaled: u128 = (e.slot_index as u128) * 10000;
                let p: u128 = scaled / (e.slots_in_epoch as u128);
                if p > 10000 {
                    10000
                } else {
                    p as u64
                }
            }
        },
    }
}

/// Assemble the stats record from the upstream reads.
///
/// `tps` and the lifetime transaction count are fixed estimates, as
/// the endpoint has always served them; the epoch is 0 when its info
/// was unavailable.
pub fn build_network_stats(
    slot: u64,
    block_height: u64,
    epoch_info: Option<EpochInfo>,
) -> (s: NetworkStats)
    requires
        slot <= i64::MAX,
        block_height <= i64::MAX,
        epoch_info matches Some(e) ==> e.epoch <= i64::MAX,
    ensures
        s.slot == slot as i64,
        s.block_height == block_height as i64,
        s.tps == 2500,
        s.total_transactions == 1_000_000_000,
        s.epoch == (match epoch_info {
            Option::Some(e) => e.epoch as i64,
            Option::None => 0,
        }),
        s.epoch_progress_hundredths == spec_epoch_progress_hundredths(epoch_info),
        s.epoch_progress_hundredths <= 10000,
{
    let epoch: i64 = match epoch_info {
        Some(e) => e.epoch as i64,
        None => 0,
    };
    let progress = epoch_progress_hundredths(epoch_info);
    NetworkStats {
        slot: slot as i64,
        block_height: block_height as i64,
        tps: 2500,
        total_transactions: 1_000_000_000,
        epoch,
        epoch_progress_hundredths: progress,
    }
}

} // verus!
