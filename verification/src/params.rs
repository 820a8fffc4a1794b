//! Pagination parameters of the list endpoints.
//!
//! Callers may omit or send arbitrary values for `page` and `limit`;
//! the layer defaults and bounds them before any slot planning, so a
//! single oversized request can never fan out past `MAX_LIMIT`
//! upstream calls.

use vstd::prelude::*;

verus! {

/// Hard ceiling on the number of items (and so upstream fetches) one
/// page may ask for.
pub const MAX_LIMIT: u32 = 100;

/// Default page when the caller sends none.
pub fn default_page() -> (r: i32)
    ensures
        r == 1,
{
    1
}

/// Default page size when the caller sends none.
pub fn default_limit() -> (r: i32)
    ensures
        r == 20,
{
    20
}

/// Default sort key of the token listing when the caller sends none.
pub fn default_sort() -> (r: String)
    ensures
        r@ == "volume_24h"@,
{
    "volume_24h".to_owned()
}

/// What a caller-supplied page number is bounded to: at least 1.
pub open spec fn spec_normalized_page(page: i32) -> u32 {
    if page < 1 {
        1u32
    } else {
        page as u32
    }
}

/// What a caller-supplied limit is bounded to: within `1..=MAX_LIMIT`.
pub open spec fn spec_normalized_limit(limit: i32) -> u32 {
    if limit < 1 {
        1u32
    } else if limit > MAX_LIMIT {
        MAX_LIMIT
    } else {
        limit as u32
    }
}

/// Page/limit query of a list endpoint, as deserialized from the
/// request; raw, possibly out of range.
#[derive(Clone, Copy, Debug)]
pub struct ListParams {
    pub page: i32,
    pub limit: i32,
}

impl ListParams {
    /// The page actually served: 1-based, never below 1.
    pub fn normalized_page(&self) -> (r: u32)
        ensures
            r == spec_normalized_page(self.page),
            r >= 1,
    {
        if self.page < 1 {
            1
        } else {
            self.page as u32
        }
    }

    /// The limit actually served: at least 1, at most `MAX_LIMIT`.
    pub fn normalized_limit(&self) -> (r: u32)
        ensures
            r == spec_normalized_limit(self.limit),
            1 <= r <= MAX_LIMIT,
    {
        if self.limit < 1 {
            1
        } else if self.limit > MAX_LIMIT as i32 {
            MAX_LIMIT
        } else {
            self.limit as u32
        }
    }
}

/// Page/limit/sort query of the token listing.
#[derive(Clone, Debug)]
pub struct TokenParams {
    pub page: i32,
    pub limit: i32,
    pub sort: String,
}

} // verus!
