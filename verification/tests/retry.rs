use solana_explorer::error::FetchError;
use solana_explorer::retry::{RetryDecision, RetryPolicy};

#[test]
fn transient_faults_are_retryable() {
    assert!(FetchError::UpstreamUnavailable.is_retryable());
    assert!(FetchError::RateLimited.is_retryable());
    assert!(!FetchError::NotFound.is_retryable());
    assert!(!FetchError::InvalidInput.is_retryable());
}

#[test]
fn standard_policy_backs_off_exponentially() {
    let p = RetryPolicy::standard();
    assert_eq!(
        p.decide(FetchError::UpstreamUnavailable, 1),
        RetryDecision::RetryAfterAtMost(100)
    );
    assert_eq!(
        p.decide(FetchError::UpstreamUnavailable, 2),
        RetryDecision::RetryAfterAtMost(200)
    );
    assert_eq!(p.decide(FetchError::UpstreamUnavailable, 3), RetryDecision::GiveUp);
}

#[test]
fn throttling_gets_a_longer_backoff() {
    let p = RetryPolicy::standard();
    assert_eq!(p.decide(FetchError::RateLimited, 1), RetryDecision::RetryAfterAtMost(200));
    assert_eq!(p.decide(FetchError::RateLimited, 2), RetryDecision::RetryAfterAtMost(400));
    assert_eq!(p.decide(FetchError::RateLimited, 3), RetryDecision::GiveUp);
}

#[test]
fn final_faults_are_never_retried() {
    let p = RetryPolicy::standard();
    assert_eq!(p.decide(FetchError::NotFound, 1), RetryDecision::GiveUp);
    assert_eq!(p.decide(FetchError::InvalidInput, 1), RetryDecision::GiveUp);
}
