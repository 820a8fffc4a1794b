use solana_explorer::address::{address_response, build_address_details, LAMPORTS_PER_SOL};
use solana_explorer::error::{FetchError, FetchOutcome};
use solana_explorer::ids::{check_address, check_signature};

#[test]
fn balance_splits_exactly_by_ten_to_the_ninth() {
    let d = build_address_details("addr".to_string(), 2_500_000_000);
    let (whole, rest) = d.balance_sol_parts();
    assert_eq!((whole, rest), (2, 500_000_000));
    let as_float = whole as f64 + rest as f64 / LAMPORTS_PER_SOL as f64;
    assert!((as_float - 2.5).abs() < 1e-12);
}

#[test]
fn balance_split_round_trips() {
    for lamports in [0u64, 1, 999_999_999, 1_000_000_000, 123_456_789_012] {
        let d = build_address_details("addr".to_string(), lamports);
        let (whole, rest) = d.balance_sol_parts();
        assert_eq!(whole * LAMPORTS_PER_SOL + rest, lamports);
        assert!(rest < LAMPORTS_PER_SOL);
    }
}

#[test]
fn details_describe_a_wallet_with_no_indexed_tokens() {
    let d = build_address_details("addr".to_string(), 7);
    assert_eq!(d.address, "addr");
    assert_eq!(d.balance_lamports, 7);
    assert_eq!(d.address_type, "wallet");
    assert!(d.tokens.is_empty());
    assert_eq!(d.transaction_count, 0);
}

#[test]
fn successful_read_yields_details() {
    let r = address_response("addr".to_string(), FetchOutcome::Found(42));
    let d = r.expect("details owed for a successful read");
    assert_eq!(d.balance_lamports, 42);
}

#[test]
fn failed_or_absent_read_yields_null() {
    assert!(address_response("addr".to_string(), FetchOutcome::NotFound).is_none());
    assert!(address_response(
        "addr".to_string(),
        FetchOutcome::Failed(FetchError::UpstreamUnavailable)
    )
    .is_none());
}

#[test]
fn well_formed_address_passes_validation() {
    // The wrapped-SOL mint: a real base58 account address.
    assert!(check_address("So11111111111111111111111111111111111111112").is_ok());
    // 32 zero bytes encode as 32 base58 ones.
    assert!(check_address(&"1".repeat(32)).is_ok());
}

#[test]
fn malformed_address_fails_fast_with_invalid_input() {
    assert_eq!(check_address(""), Err(FetchError::InvalidInput));
    assert_eq!(check_address("0OIl"), Err(FetchError::InvalidInput));
    assert_eq!(check_address("tooshort"), Err(FetchError::InvalidInput));
    // Signature-sized payload: decodes to 64 bytes, not 32.
    assert_eq!(check_address(&"1".repeat(64)), Err(FetchError::InvalidInput));
}

#[test]
fn well_formed_signature_passes_validation() {
    // 64 zero bytes encode as 64 base58 ones.
    assert!(check_signature(&"1".repeat(64)).is_ok());
}

#[test]
fn malformed_signature_fails_fast_with_invalid_input() {
    assert_eq!(check_signature(""), Err(FetchError::InvalidInput));
    assert_eq!(check_signature("not-base58-!"), Err(FetchError::InvalidInput));
    // Address-sized payload: decodes to 32 bytes, not 64.
    assert_eq!(
        check_signature("So11111111111111111111111111111111111111112"),
        Err(FetchError::InvalidInput)
    );
}
