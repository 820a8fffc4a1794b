use solana_explorer::normalize::{
    normalize_block, normalize_transaction, RawBlock, RawTransaction, RawTransactionMeta,
};

fn raw_block() -> RawBlock {
    RawBlock {
        blockhash: "hash".to_string(),
        previous_blockhash: "prev".to_string(),
        parent_slot: 41,
        block_time: Some(1_700_000_000),
        reward_addresses: vec!["leaderpubkey".to_string(), "other".to_string()],
        transaction_count: 3,
    }
}

#[test]
fn block_takes_first_reward_as_leader() {
    let b = normalize_block(42, raw_block());
    assert_eq!(b.leader, "leaderpubkey");
}

#[test]
fn block_without_rewards_has_empty_leader() {
    let mut raw = raw_block();
    raw.reward_addresses.clear();
    let b = normalize_block(42, raw);
    assert_eq!(b.leader, "");
}

#[test]
fn block_missing_time_defaults_to_zero() {
    let mut raw = raw_block();
    raw.block_time = None;
    let b = normalize_block(42, raw);
    assert_eq!(b.timestamp, 0);
}

#[test]
fn block_fields_carry_over() {
    let b = normalize_block(42, raw_block());
    assert_eq!(b.block_number, 42);
    assert_eq!(b.slot, 42);
    assert_eq!(b.timestamp, 1_700_000_000);
    assert_eq!(b.transactions_count, 3);
    assert_eq!(b.blockhash.as_deref(), Some("hash"));
    assert_eq!(b.parent_slot, Some(41));
    assert_eq!(b.previous_blockhash.as_deref(), Some("prev"));
}

#[test]
fn transaction_without_error_is_success() {
    let raw = RawTransaction {
        slot: 9,
        block_time: Some(123),
        meta: Some(RawTransactionMeta { fee: 5000, err_present: false }),
    };
    let t = normalize_transaction("sig".to_string(), raw);
    assert_eq!(t.status, "success");
    assert_eq!(t.fee, 5000);
    assert_eq!(t.block_number, 9);
    assert_eq!(t.slot, 9);
    assert_eq!(t.timestamp, 123);
    assert_eq!(t.signature, "sig");
    assert_eq!(t.signer, "");
}

#[test]
fn transaction_with_error_is_failed() {
    let raw = RawTransaction {
        slot: 9,
        block_time: None,
        meta: Some(RawTransactionMeta { fee: 5000, err_present: true }),
    };
    let t = normalize_transaction("sig".to_string(), raw);
    assert_eq!(t.status, "failed");
    assert_eq!(t.timestamp, 0);
}

#[test]
fn transaction_without_meta_is_failed_with_zero_fee() {
    let raw = RawTransaction { slot: 9, block_time: Some(123), meta: None };
    let t = normalize_transaction("sig".to_string(), raw);
    assert_eq!(t.status, "failed");
    assert_eq!(t.fee, 0);
}
