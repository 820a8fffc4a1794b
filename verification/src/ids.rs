//! Format validation of chain identifiers.
//!
//! Both lookups that take a caller-supplied key validate it before
//! any network call: a malformed address or signature fails fast
//! with `InvalidInput` and costs no upstream round-trip. The chain's
//! SDK is the authority on what is well formed; its parsers are pure
//! functions of the characters, named here and relied on as such.

use vstd::prelude::*;
use crate::error::FetchError;

verus! {

/// Whether a string is a well-formed account address: base58 text
/// decoding to exactly 32 bytes.
pub uninterp spec fn is_valid_pubkey(s: Seq<char>) -> bool;

/// Whether a string is a well-formed transaction signature: base58
/// text decoding to exactly 64 bytes.
pub uninterp spec fn is_valid_signature(s: Seq<char>) -> bool;

/// Relies on solana_sdk::pubkey::Pubkey::from_str: accepts exactly
/// the base58 strings that decode to 32 bytes, a pure function of
/// the characters alone; it never panics.
#[verifier::external_body]
fn pubkey_parses(s: &str) -> (r: bool)
    ensures
        r == is_valid_pubkey(s@),
{
    <solana_sdk::pubkey::Pubkey as core::str::FromStr>::from_str(s).is_ok()
}

/// Relies on solana_sdk::signature::Signature::from_str: accepts
/// exactly the base58 strings that decode to 64 bytes, a pure
/// function of the characters alone; it never panics.
#[verifier::external_body]
fn signature_parses(s: &str) -> (r: bool)
    ensures
        r == is_valid_signature(s@),
{
    <solana_sdk::signature::Signature as core::str::FromStr>::from_str(s).is_ok()
}

/// Validate an account address before its balance is fetched.
/// Accepts exactly the well-formed addresses; everything else is
/// `InvalidInput`, raised before any network call.
pub fn check_address(address: &str) -> (r: Result<(), FetchError>)
    ensures
        r is Ok <==> is_valid_pubkey(address@),
        r matches Err(e) ==> e == FetchError::InvalidInput,
{
    if pubkey_parses(address) {
        Ok(())
    } else {
        Err(FetchError::InvalidInput)
    }
}

/// Validate a transaction signature before the transaction is
/// fetched. Accepts exactly the well-formed signatures; everything
/// else is `InvalidInput`, raised before any network call.
pub fn check_signature(signature: &str) -> (r: Result<(), FetchError>)
    ensures
        r is Ok <==> is_valid_signature(signature@),
        r matches Err(e) ==> e == FetchError::InvalidInput,
{
    if signature_parses(signature) {
        Ok(())
    } else {
        Err(FetchError::InvalidInput)
    }
}

} // verus!
