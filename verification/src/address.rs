//! Address details: the account lookup's view model.
//!
//! The balance is carried as the raw integer smallest-unit amount,
//! exactly as read; the split into native units is exact integer
//! division by 10^9, so nothing is lost before display. Details are
//! built only from a successful read — a failed or absent one yields
//! absence, never a zero-filled placeholder.

use vstd::prelude::*;
use crate::error::FetchOutcome;

verus! {

/// Smallest units per native unit of the chain's currency.
pub const LAMPORTS_PER_SOL: u64 = 1_000_000_000;

/// One token holding of an account.
#[derive(Clone, Debug)]
pub struct TokenBalance {
    pub mint: String,
    pub symbol: String,
    pub name: String,
    pub balance: String,
    pub decimals: u8,
}

/// The account lookup's view model.
#[derive(Clone, Debug)]
pub struct AddressDetails {
    pub address: String,
    /// Raw balance in the chain's smallest unit, exactly as read.
    pub balance_lamports: u64,
    /// Inferred, not authoritative: the lookup serves wallets.
    pub address_type: String,
    /// Ordered, may be empty; unindexed accounts report none.
    pub tokens: Vec<TokenBalance>,
    /// Best-effort; 0 when unindexed.
    pub transaction_count: i32,
}

impl AddressDetails {
    /// The balance split exactly into whole native units and the
    /// remainder in smallest units: `whole * 10^9 + rest` gives back
    /// the raw balance, with `rest < 10^9`. The HTTP layer renders
    /// `whole.rest`; nothing here rounds.
    pub fn balance_sol_parts(&self) -> (r: (u64, u64))
        ensures
            r.0 == self.balance_lamports / LAMPORTS_PER_SOL,
            r.1 == self.balance_lamports % LAMPORTS_PER_SOL,
            r.0 * LAMPORTS_PER_SOL + r.1 == self.balance_lamports,
            r.1 < LAMPORTS_PER_SOL,
    {
        (
            self.balance_lamports / LAMPORTS_PER_SOL,
            self.balance_lamports % LAMPORTS_PER_SOL,
        )
    }
}

/// Build the details of a wallet address from a successful balance
/// read.
pub fn build_address_details(address: String, lamports: u64) -> (d: AddressDetails)
    ensures
        d.address == address,
        d.balance_lamports == lamports,
        d.address_type@ == "wallet"@,
        d.tokens@.len() == 0,
        d.transaction_count == 0,
{
    AddressDetails {
        address,
        balance_lamports: lamports,
        address_type: "wallet".to_owned(),
        tokens: Vec::new(),
        transaction_count: 0,
    }
}

/// The address endpoint's answer for a validated address, given the
/// balance read's outcome: full details exactly when the read
/// succeeded, absence otherwise — whatever the failure was, no
/// partial record leaks out.
pub fn address_response(address: String, fetched: FetchOutcome<u64>) -> (r: Option<
    AddressDetails,
>)
    ensures
        fetched matches FetchOutcome::Found(lamports) ==> (r matches Some(d)
            && d.address == address && d.balance_lamports == lamports
            && d.address_type@ == "wallet"@ && d.tokens@.len() == 0
            && d.transaction_count == 0),
        !(fetched is Found) ==> r is None,
{
    match fetched {
        FetchOutcome::Found(lamports) => Some(build_address_details(address, lamports)),
        _ => None,
    }
}

} // verus!
