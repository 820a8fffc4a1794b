//! Response envelope and page assembly.
//!
//! Every list endpoint answers with the same wrapper: the ordered
//! items, a best-effort total, and the (possibly defaulted) page and
//! limit echoed back. For the block list, assembly drops the slots
//! the upstream had nothing for — a short page is normal on this
//! class of chain, never padded with placeholders.

use vstd::prelude::*;
use crate::error::FetchOutcome;
use crate::models::{Block, Transaction};
use crate::params::{spec_normalized_limit, spec_normalized_page, ListParams};
use crate::planner::{spec_planned_len, spec_planned_slots};
use crate::pool::{
    in_submission_order, tags_bounded, tags_distinct, Completion,
};

verus! {

/// The values of the successful outcomes, in order; absences and
/// failures are dropped, never replaced by a placeholder.
pub open spec fn spec_kept<T>(s: Seq<FetchOutcome<T>>) -> Seq<T>
    decreases s.len(),
{
    if s.len() == 0 {
        Seq::<T>::empty()
    } else {
        match s.first() {
            FetchOutcome::Found(v) => seq![v] + spec_kept(s.drop_first()),
            _ => spec_kept(s.drop_first()),
        }
    }
}

/// Dropping can only shorten: a page never grows past the number of
/// slots that were asked for.
pub proof fn lemma_kept_len<T>(s: Seq<FetchOutcome<T>>)
    ensures
        spec_kept(s).len() <= s.len(),
    decreases s.len(),
{
    if s.len() > 0 {
        lemma_kept_len(s.drop_first());
    }
}

/// Law: no placeholders. Every kept item is the value of some
/// successful outcome of the batch; nothing is invented.
pub proof fn lemma_kept_are_found<T>(s: Seq<FetchOutcome<T>>, k: int)
    requires
        0 <= k < spec_kept(s).len(),
    ensures
        exists|i: int|
            0 <= i < s.len() && s[i] == FetchOutcome::Found(spec_kept(s)[k]),
    decreases s.len(),
{
    if s.len() > 0 {
        match s.first() {
            FetchOutcome::Found(v) => {
                if k == 0 {
                    assert(s[0] == FetchOutcome::Found(spec_kept(s)[0]));
                } else {
                    lemma_kept_are_found(s.drop_first(), k - 1);
                    let i = choose|i: int|
                        0 <= i < s.drop_first().len() && s.drop_first()[i]
                            == FetchOutcome::Found(spec_kept(s.drop_first())[k - 1]);
                    assert(s[i + 1] == FetchOutcome::Found(spec_kept(s)[k]));
                }
            },
            _ => {
                lemma_kept_are_found(s.drop_first(), k);
                let i = choose|i: int|
                    0 <= i < s.drop_first().len() && s.drop_first()[i]
                        == FetchOutcome::Found(spec_kept(s.drop_first())[k]);
                assert(s[i + 1] == FetchOutcome::Found(spec_kept(s)[k]));
            },
        }
    }
}

/// Keep the successful outcomes' values, in order.
pub fn kept_values<T>(outcomes: Vec<FetchOutcome<T>>) -> (r: Vec<T>)
    ensures
        r@ == spec_kept(outcomes@),
        r@.len() <= outcomes@.len(),
{
    let ghost orig = outcomes@;
    let mut rem = outcomes;
    let mut out: Vec<T> = Vec::new();
    proof {
        assert(out@ + spec_kept(rem@) =~= spec_kept(orig));
    }
    while rem.len() > 0
        invariant
            out@ + spec_kept(rem@) == spec_kept(orig),
            out@.len() + rem@.len() <= orig.len(),
        decreases rem@.len(),
    {
        let ghost pre = rem@;
        let e = rem.remove(0);
        proof {
            assert(e == pre.first());
            assert(rem@ =~= pre.drop_first());
        }
        match e {
            FetchOutcome::Found(v) => {
                out.push(v);
                proof {
                    assert(out@ + spec_kept(rem@) =~= spec_kept(orig));
                }
            },
            _ => {
                proof {
                    assert(out@ + spec_kept(rem@) =~= spec_kept(orig));
                }
            },
        }
    }
    proof {
        lemma_kept_len(orig);
        assert(spec_kept(rem@) =~= Seq::<T>::empty());
        assert(out@ =~= out@ + spec_kept(rem@));
    }
    out
}

/// Paged envelope of the block list: the blocks found for the
/// requested window, the head slot as best-effort total, and the
/// served page and limit echoed back.
#[derive(Clone, Debug)]
pub struct BlocksResponse {
    pub blocks: Vec<Block>,
    /// Best-effort count: the chain's head slot, an approximation of
    /// how many slots exist, not an exact row count.
    pub total: i64,
    pub page: i32,
    pub limit: i32,
}

/// Paged envelope of a transaction list.
#[derive(Clone, Debug)]
pub struct TransactionsResponse {
    pub transactions: Vec<Transaction>,
    pub total: i64,
    pub page: i32,
    pub limit: i32,
}

/// Assemble the block-list response from the per-slot outcomes, in
/// submission order, of one planned page.
///
/// Slots the upstream had nothing for are dropped, so the page may
/// be short of `limit` — that is normal, not an end-of-data signal.
/// The echoed page and limit are the served (defaulted and bounded)
/// values; `total` is the head slot.
pub fn assemble_blocks_response(
    head: u64,
    params: ListParams,
    outcomes: Vec<FetchOutcome<Block>>,
) -> (r: BlocksResponse)
    requires
        head <= i64::MAX,
        outcomes@.len() == spec_planned_len(
            head,
            spec_normalized_page(params.page),
            spec_normalized_limit(params.limit),
        ),
    ensures
        r.blocks@ == spec_kept(outcomes@),
        r.blocks@.len() <= spec_normalized_limit(params.limit),
        r.total == head as i64,
        r.page == spec_normalized_page(params.page) as i32,
        r.limit == spec_normalized_limit(params.limit) as i32,
{
    proof {
        lemma_kept_len(outcomes@);
    }
    let page = params.normalized_page();
    let limit = params.normalized_limit();
    let blocks = kept_values(outcomes);
    BlocksResponse { blocks, total: head as i64, page: page as i32, limit: limit as i32 }
}

/// The envelope of a transaction list that is not indexed yet:
/// always empty, total 0, the served page and limit echoed back.
pub fn empty_transactions_response(params: ListParams) -> (r: TransactionsResponse)
    ensures
        r.transactions@.len() == 0,
        r.total == 0,
        r.page == spec_normalized_page(params.page) as i32,
        r.limit == spec_normalized_limit(params.limit) as i32,
{
    let page = params.normalized_page();
    let limit = params.normalized_limit();
    TransactionsResponse {
        transactions: Vec::new(),
        total: 0,
        page: page as i32,
        limit: limit as i32,
    }
}

/// Whether a batch of completions is exactly one task per planned
/// slot of the page, each task's outcome drawn from `chain` — the
/// chain's (unchanged) answer for that slot.
pub open spec fn completions_match_chain(
    c: Seq<Completion<FetchOutcome<Block>>>,
    head: u64,
    page: u32,
    limit: u32,
    chain: Map<u64, FetchOutcome<Block>>,
) -> bool {
    &&& tags_distinct(c)
    &&& tags_bounded(c)
    &&& c.len() == spec_planned_len(head, page, limit)
    &&& forall|j: int|
        0 <= j < c.len() ==> (#[trigger] c[j]).value == chain[spec_planned_slots(
            head,
            page,
            limit,
        )[c[j].tag as int]]
}

/// Law: repeating an identical list-blocks request against an
/// unchanged chain head returns the same item sequence. Two runs of
/// the same (head, page, limit) request, with their fetch tasks
/// completing in any orders, assemble the same blocks as long as the
/// chain's answer per slot is unchanged.
pub proof fn lemma_repeat_request_same_items(
    head: u64,
    page: u32,
    limit: u32,
    chain: Map<u64, FetchOutcome<Block>>,
    c1: Seq<Completion<FetchOutcome<Block>>>,
    c2: Seq<Completion<FetchOutcome<Block>>>,
)
    requires
        completions_match_chain(c1, head, page, limit, chain),
        completions_match_chain(c2, head, page, limit, chain),
    ensures
        spec_kept(in_submission_order(c1)) == spec_kept(in_submission_order(c2)),
{
    crate::pool::lemma_every_position_completed(c1);
    crate::pool::lemma_every_position_completed(c2);
    assert forall|i: int|
        0 <= i < c1.len() implies in_submission_order(c1)[i] == in_submission_order(
        c2,
    )[i] by {
        assert(crate::pool::has_tag(c1, i));
        assert(crate::pool::has_tag(c2, i));
        let j1 = crate::pool::tag_index(c1, i);
        assert(0 <= j1 < c1.len() && c1[j1].tag == i);
        let j2 = crate::pool::tag_index(c2, i);
        assert(0 <= j2 < c2.len() && c2[j2].tag == i);
        assert(c1[j1].value == chain[spec_planned_slots(head, page, limit)[i]]);
        assert(c2[j2].value == chain[spec_planned_slots(head, page, limit)[i]]);
    }
    assert(in_submission_order(c1) =~= in_submission_order(c2));
}

} // verus!
