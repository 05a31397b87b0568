use bridge_cli::fetch::{FetchFault, RetryPolicy};

#[test]
fn transient_faults_are_retried_with_doubling_backoff() {
    let mut policy = RetryPolicy::new(3, 100);
    assert_eq!(policy.on_fault(FetchFault::Transient), Some(100));
    assert_eq!(policy.on_fault(FetchFault::Transient), Some(200));
    assert_eq!(policy.on_fault(FetchFault::Transient), Some(400));
    // The attempt budget is spent: the fetch gives up.
    assert_eq!(policy.on_fault(FetchFault::Transient), None);
    assert_eq!(policy.attempts_left, 0);
}

#[test]
fn a_fatal_fault_ends_the_fetch_at_once() {
    let mut policy = RetryPolicy::new(5, 100);
    assert_eq!(policy.on_fault(FetchFault::Fatal), None);
    // Nothing was spent: the fault was no retry candidate at all.
    assert_eq!(policy.attempts_left, 5);
    assert_eq!(policy.delay_ms, 100);
}

#[test]
fn the_backoff_saturates_instead_of_wrapping() {
    let mut policy = RetryPolicy::new(2, u64::MAX - 3);
    assert_eq!(policy.on_fault(FetchFault::Transient), Some(u64::MAX - 3));
    assert_eq!(policy.delay_ms, u64::MAX);
    assert_eq!(policy.on_fault(FetchFault::Transient), Some(u64::MAX));
    assert_eq!(policy.delay_ms, u64::MAX);
}
