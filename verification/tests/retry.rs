use huawei_solar::retry::{RetryAction, RetryPolicy, RETRY_DELAY_MILLIS};

/// Run the retry loop against a stub that fails until `failures` attempts
/// have been made, then succeeds. Returns the outcome and how many calls
/// the stub took.
fn run_with_stub(failures: u32, max_attempts: u8) -> (Result<u32, &'static str>, u32) {
    let mut calls: u32 = 0;
    let mut stub = || {
        calls += 1;
        if calls > failures {
            Ok(calls)
        } else {
            Err("transport failure")
        }
    };
    let mut policy = RetryPolicy::new(max_attempts);
    loop {
        if !policy.may_attempt() {
            return (Err("no attempts allowed"), calls);
        }
        match stub() {
            Ok(v) => return (Ok(v), calls),
            Err(e) => match policy.record_failure() {
                RetryAction::Retry => continue,
                RetryAction::GiveUp => return (Err(e), calls),
            },
        }
    }
}

#[test]
fn success_on_attempt_k_stops_there() {
    for k in 1u32..=5 {
        let (result, calls) = run_with_stub(k - 1, 5);
        assert_eq!(result, Ok(k));
        assert_eq!(calls, k, "no calls may follow the first success");
    }
}

#[test]
fn all_failures_make_exactly_max_attempts_calls() {
    let (result, calls) = run_with_stub(u32::MAX, 5);
    assert_eq!(result, Err("transport failure"));
    assert_eq!(calls, 5);
}

#[test]
fn single_attempt_budget() {
    let (result, calls) = run_with_stub(u32::MAX, 1);
    assert_eq!(result, Err("transport failure"));
    assert_eq!(calls, 1);
    let (result, calls) = run_with_stub(0, 1);
    assert_eq!(result, Ok(1));
    assert_eq!(calls, 1);
}

#[test]
fn retry_decisions_follow_the_budget() {
    let mut policy = RetryPolicy::new(3);
    assert!(policy.may_attempt());
    assert_eq!(policy.record_failure(), RetryAction::Retry);
    assert_eq!(policy.record_failure(), RetryAction::Retry);
    assert_eq!(policy.record_failure(), RetryAction::GiveUp);
    assert!(!policy.may_attempt());
}

#[test]
fn delay_is_fixed() {
    assert_eq!(RETRY_DELAY_MILLIS, 200);
}
