//! Slot range planner.
//!
//! Converts a (page, limit) pagination request into the ordered
//! sequence of candidate chain slots to fetch for a "list blocks"
//! query: `limit` strictly descending slots starting at
//! `head - (page - 1) * limit`, stopping early rather than ever
//! requesting a slot below 0.

use vstd::prelude::*;

verus! {

/// First (highest) candidate slot of the requested page, as an
/// unbounded integer: negative when the whole window lies below the
/// start of the chain.
pub open spec fn spec_first_candidate(head: u64, page: u32, limit: u32) -> int {
    head - (page - 1) * limit
}

/// How many candidate slots the page really has: `limit`, cut short
/// where the descending window would cross below slot 0.
pub open spec fn spec_planned_len(head: u64, page: u32, limit: u32) -> int {
    let first = spec_first_candidate(head, page, limit);
    if first < 0 {
        0
    } else if first + 1 < limit {
        first + 1
    } else {
        limit as int
    }
}

/// The planned candidate slots, strictly descending from the first.
pub open spec fn spec_planned_slots(head: u64, page: u32, limit: u32) -> Seq<u64> {
    Seq::new(
        spec_planned_len(head, page, limit) as nat,
        |i: int| (spec_first_candidate(head, page, limit) - i) as u64,
    )
}

/// Plan the candidate slots for one page of the block list.
///
/// For every `page >= 1` and `1 <= limit <= MAX_LIMIT` the plan holds
/// exactly `limit` strictly descending slots starting at
/// `head - (page - 1) * limit`, except that it stops early instead of
/// going below slot 0; a page whose whole window lies below 0 plans
/// nothing.
pub fn plan_slots(head: u64, page: u32, limit: u32) -> (r: Vec<u64>)
    requires
        page >= 1,
        1 <= limit <= crate::params::MAX_LIMIT,
    ensures
        r@ == spec_planned_slots(head, page, limit),
        r@.len() == spec_planned_len(head, page, limit),
        r@.len() <= limit,
        forall|i: int|
            0 <= i < r@.len() ==> r@[i] == spec_first_candidate(head, page, limit) - i,
        forall|i: int| 0 < i < r@.len() ==> #[trigger] r@[i] < r@[i - 1],
{
    let p1: u64 = (page - 1) as u64;
    let lim: u64 = limit as u64;
    proof {
        assert(p1 * lim <= 0xffff_ffffu64 * 100) by (nonlinear_arith)
            requires
                p1 <= 0xffff_ffffu64,
                lim <= 100,
        ;
    }
    let offset: u64 = p1 * lim;
    let mut out: Vec<u64> = Vec::new();
    if offset > head {
        proof {
            assert(spec_first_candidate(head, page, limit) < 0);
            assert(out@ =~= spec_planned_slots(head, page, limit));
        }
        return out;
    }
    let first: u64 = head - offset;
    let mut i: u32 = 0;
    while i < limit && (i as u64) <= first
        invariant
            page >= 1,
            1 <= limit,
            offset == (page - 1) * limit,
            offset <= head,
            first == head - offset,
            first == spec_first_candidate(head, page, limit),
            i <= limit,
            i as u64 <= first + 1,
            out@.len() == i,
            forall|j: int| 0 <= j < i ==> out@[j] == first - j,
        decreases limit - i,
    {
        out.push(first - (i as u64));
        i = i + 1;
    }
    proof {
        assert(out@.len() == spec_planned_len(head, page, limit));
        assert(out@ =~= spec_planned_slots(head, page, limit));
    }
    out
}

} // verus!
