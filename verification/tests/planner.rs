use solana_explorer::planner::plan_slots;

#[test]
fn plans_full_window_first_page() {
    let slots = plan_slots(100, 1, 3);
    assert_eq!(slots, vec![100, 99, 98]);
}

#[test]
fn plans_window_of_later_page() {
    let slots = plan_slots(100, 2, 10);
    assert_eq!(slots, vec![90, 89, 88, 87, 86, 85, 84, 83, 82, 81]);
}

#[test]
fn plans_exactly_limit_candidates_when_no_underflow() {
    for page in 1u32..5 {
        for limit in [1u32, 7, 20, 100] {
            let slots = plan_slots(1_000_000, page, limit);
            assert_eq!(slots.len(), limit as usize);
            let first = 1_000_000 - u64::from((page - 1) * limit);
            for (i, s) in slots.iter().enumerate() {
                assert_eq!(*s, first - i as u64);
            }
        }
    }
}

#[test]
fn stops_early_at_slot_zero() {
    let slots = plan_slots(1, 1, 20);
    assert_eq!(slots, vec![1, 0]);
}

#[test]
fn plans_nothing_when_window_is_below_zero() {
    let slots = plan_slots(5, 100, 20);
    assert!(slots.is_empty());
}

#[test]
fn candidates_strictly_descend() {
    let slots = plan_slots(987_654, 3, 50);
    for w in slots.windows(2) {
        assert!(w[0] > w[1]);
    }
}
