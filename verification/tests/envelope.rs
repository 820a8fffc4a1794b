use solana_explorer::envelope::{
    assemble_blocks_response, empty_transactions_response, kept_values,
};
use solana_explorer::error::{FetchError, FetchOutcome};
use solana_explorer::models::Block;
use solana_explorer::params::ListParams;
use solana_explorer::planner::plan_slots;
use solana_explorer::pool::{reorder, Completion};

fn block(slot: i64) -> Block {
    Block {
        block_number: slot,
        slot,
        timestamp: 0,
        leader: String::new(),
        transactions_count: 0,
        blockhash: None,
        parent_slot: None,
        previous_blockhash: None,
    }
}

#[test]
fn missing_slots_are_dropped_not_padded() {
    let outcomes = vec![
        FetchOutcome::Found(block(100)),
        FetchOutcome::NotFound,
        FetchOutcome::Found(block(98)),
        FetchOutcome::Failed(FetchError::UpstreamUnavailable),
        FetchOutcome::Found(block(96)),
    ];
    let kept = kept_values(outcomes);
    let numbers: Vec<i64> = kept.iter().map(|b| b.block_number).collect();
    assert_eq!(numbers, vec![100, 98, 96]);
}

#[test]
fn page_shorter_than_limit_is_normal() {
    let params = ListParams { page: 1, limit: 3 };
    let outcomes = vec![
        FetchOutcome::Found(block(500)),
        FetchOutcome::NotFound,
        FetchOutcome::NotFound,
    ];
    let r = assemble_blocks_response(500, params, outcomes);
    assert_eq!(r.blocks.len(), 1);
    assert!(r.blocks.len() <= 3);
    assert_eq!(r.total, 500);
    assert_eq!(r.page, 1);
    assert_eq!(r.limit, 3);
}

#[test]
fn envelope_echoes_bounded_page_and_limit() {
    let params = ListParams { page: 0, limit: 1000 };
    let r = empty_transactions_response(params);
    assert!(r.transactions.is_empty());
    assert_eq!(r.total, 0);
    assert_eq!(r.page, 1);
    assert_eq!(r.limit, 100);
    let params = ListParams { page: -3, limit: 0 };
    let r = empty_transactions_response(params);
    assert_eq!(r.page, 1);
    assert_eq!(r.limit, 1);
}

#[test]
fn identical_request_on_unchanged_head_returns_same_items() {
    // The chain's fixed answer per slot: even slots exist, odd are
    // skipped.
    let chain = |slot: u64| -> FetchOutcome<Block> {
        if slot % 2 == 0 {
            FetchOutcome::Found(block(slot as i64))
        } else {
            FetchOutcome::NotFound
        }
    };
    let head = 40u64;
    let params = ListParams { page: 1, limit: 8 };
    let run = |completion_order: &[usize]| {
        let plan = plan_slots(head, 1, 8);
        let completions: Vec<Completion<FetchOutcome<Block>>> = completion_order
            .iter()
            .map(|&tag| Completion { tag, value: chain(plan[tag]) })
            .collect();
        let ordered = reorder(completions);
        assemble_blocks_response(head, params, ordered)
    };
    let first = run(&[0, 1, 2, 3, 4, 5, 6, 7]);
    let second = run(&[5, 2, 7, 0, 3, 6, 1, 4]);
    let firsts: Vec<i64> = first.blocks.iter().map(|b| b.block_number).collect();
    let seconds: Vec<i64> = second.blocks.iter().map(|b| b.block_number).collect();
    assert_eq!(firsts, seconds);
    assert_eq!(firsts, vec![40, 38, 36, 34]);
}
