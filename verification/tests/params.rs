use solana_explorer::params::{
    default_limit, default_page, default_sort, ListParams, MAX_LIMIT,
};

#[test]
fn defaults_match_the_api_contract() {
    assert_eq!(default_page(), 1);
    assert_eq!(default_limit(), 20);
    assert_eq!(default_sort(), "volume_24h");
}

#[test]
fn page_is_bounded_below_by_one() {
    assert_eq!(ListParams { page: 0, limit: 20 }.normalized_page(), 1);
    assert_eq!(ListParams { page: -7, limit: 20 }.normalized_page(), 1);
    assert_eq!(ListParams { page: 1, limit: 20 }.normalized_page(), 1);
    assert_eq!(ListParams { page: 9, limit: 20 }.normalized_page(), 9);
}

#[test]
fn limit_is_bounded_into_range() {
    assert_eq!(ListParams { page: 1, limit: 0 }.normalized_limit(), 1);
    assert_eq!(ListParams { page: 1, limit: -1 }.normalized_limit(), 1);
    assert_eq!(ListParams { page: 1, limit: 20 }.normalized_limit(), 20);
    assert_eq!(ListParams { page: 1, limit: 100 }.normalized_limit(), MAX_LIMIT);
    assert_eq!(ListParams { page: 1, limit: 101 }.normalized_limit(), MAX_LIMIT);
    assert_eq!(ListParams { page: 1, limit: i32::MAX }.normalized_limit(), MAX_LIMIT);
}
