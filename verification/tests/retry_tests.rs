use balance_resolver::retry::{delay_for_attempt, RetryDecision, RetryPolicy, RetryState};

fn reference_policy() -> RetryPolicy {
    // factor 2, first delay 100 ms, ceiling 500 s, at most 4 attempts
    RetryPolicy::new(2, 100, 500_000, 4)
}

#[test]
fn delays_double_from_the_minimum() {
    let p = reference_policy();
    assert_eq!(delay_for_attempt(&p, 0), 100);
    assert_eq!(delay_for_attempt(&p, 1), 200);
    assert_eq!(delay_for_attempt(&p, 2), 400);
    assert_eq!(delay_for_attempt(&p, 3), 800);
}

#[test]
fn delays_are_capped_at_the_maximum() {
    let p = RetryPolicy::new(2, 100, 250, 10);
    assert_eq!(delay_for_attempt(&p, 0), 100);
    assert_eq!(delay_for_attempt(&p, 1), 200);
    assert_eq!(delay_for_attempt(&p, 2), 250);
    assert_eq!(delay_for_attempt(&p, 3), 250);
    assert_eq!(delay_for_attempt(&p, 9), 250);
}

#[test]
fn delays_are_nondecreasing() {
    let p = RetryPolicy::new(3, 7, 1000, 20);
    let mut prev: u64 = 0;
    for k in 0..20u64 {
        let d = delay_for_attempt(&p, k);
        assert!(d >= prev);
        assert!(d <= 1000);
        prev = d;
    }
}

#[test]
fn first_delay_is_clamped_when_minimum_exceeds_maximum() {
    let p = RetryPolicy::new(2, 300, 200, 2);
    assert_eq!(delay_for_attempt(&p, 0), 200);
    assert_eq!(delay_for_attempt(&p, 1), 200);
}

#[test]
fn attempts_are_bounded() {
    let mut run = RetryState::new(reference_policy());
    assert_eq!(run.attempts_made, 0);
    assert_eq!(run.on_attempt_failed(), RetryDecision::RetryAfter { delay_ms: 100 });
    assert_eq!(run.on_attempt_failed(), RetryDecision::RetryAfter { delay_ms: 200 });
    assert_eq!(run.on_attempt_failed(), RetryDecision::RetryAfter { delay_ms: 400 });
    // the fourth attempt is the last one the policy allows
    assert_eq!(run.on_attempt_failed(), RetryDecision::GiveUp);
    assert_eq!(run.attempts_made, 4);
}

#[test]
fn single_attempt_policy_never_retries() {
    let p = RetryPolicy::new(2, 100, 1000, 1);
    let mut run = RetryState::new(p);
    assert_eq!(run.on_attempt_failed(), RetryDecision::GiveUp);
}
