use solana_explorer::stats::{build_network_stats, epoch_progress_hundredths, EpochInfo};

#[test]
fn progress_is_zero_without_epoch_info() {
    assert_eq!(epoch_progress_hundredths(None), 0);
}

#[test]
fn progress_matches_exact_ratio() {
    let info = EpochInfo { epoch: 512, slot_index: 216_000, slots_in_epoch: 432_000 };
    let hundredths = epoch_progress_hundredths(Some(info));
    assert_eq!(hundredths, 5_000);
    let percent = hundredths as f64 / 100.0;
    assert!((percent - (216_000.0 / 432_000.0) * 100.0).abs() < 1e-9);
}

#[test]
fn progress_truncates_to_hundredths() {
    let info = EpochInfo { epoch: 1, slot_index: 1, slots_in_epoch: 3 };
    // 1/3 of an epoch is 33.33..%; integer division keeps 33.33%.
    assert_eq!(epoch_progress_hundredths(Some(info)), 3_333);
}

#[test]
fn progress_is_clamped_to_one_hundred_percent() {
    let info = EpochInfo { epoch: 1, slot_index: 500, slots_in_epoch: 100 };
    assert_eq!(epoch_progress_hundredths(Some(info)), 10_000);
}

#[test]
fn degenerate_epoch_reports_zero_progress() {
    let info = EpochInfo { epoch: 1, slot_index: 5, slots_in_epoch: 0 };
    assert_eq!(epoch_progress_hundredths(Some(info)), 0);
}

#[test]
fn stats_carry_reads_and_estimates() {
    let info = EpochInfo { epoch: 512, slot_index: 108_000, slots_in_epoch: 432_000 };
    let s = build_network_stats(250_000_000, 230_000_000, Some(info));
    assert_eq!(s.slot, 250_000_000);
    assert_eq!(s.block_height, 230_000_000);
    assert_eq!(s.tps, 2500);
    assert_eq!(s.total_transactions, 1_000_000_000);
    assert_eq!(s.epoch, 512);
    assert_eq!(s.epoch_progress_hundredths, 2_500);
}

#[test]
fn stats_without_epoch_info_report_epoch_zero() {
    let s = build_network_stats(10, 9, None);
    assert_eq!(s.epoch, 0);
    assert_eq!(s.epoch_progress_hundredths, 0);
}
