use coinbase_agent_kit_blueprint::backoff::{PolicyError, PollPolicy};

fn local_like() -> PollPolicy {
    PollPolicy::new(15, 0, 1000, 1500, Some(5000), 5000).unwrap()
}

#[test]
fn new_rejects_zero_timeout() {
    assert_eq!(
        PollPolicy::new(3, 0, 100, 2000, None, 0),
        Err(PolicyError::ZeroTimeout)
    );
}

#[test]
fn new_rejects_shrinking_multiplier() {
    assert_eq!(
        PollPolicy::new(3, 0, 100, 999, None, 50),
        Err(PolicyError::ShrinkingBackoff)
    );
}

#[test]
fn new_checks_timeout_before_multiplier() {
    assert_eq!(
        PollPolicy::new(3, 0, 100, 10, None, 0),
        Err(PolicyError::ZeroTimeout)
    );
}

#[test]
fn new_keeps_every_knob() {
    let p = PollPolicy::new(7, 11, 13, 1000, Some(17), 19).unwrap();
    assert_eq!(
        p,
        PollPolicy {
            max_attempts: 7,
            startup_delay_ms: 11,
            initial_delay_ms: 13,
            backoff_per_mille: 1000,
            max_delay_ms: Some(17),
            per_attempt_timeout_ms: 19,
            accept_malformed: false,
        }
    );
    assert!(p.is_valid());
}

#[test]
fn is_valid_matches_new() {
    let mut p = local_like();
    assert!(p.is_valid());
    p.backoff_per_mille = 500;
    assert!(!p.is_valid());
    p.backoff_per_mille = 1000;
    p.per_attempt_timeout_ms = 0;
    assert!(!p.is_valid());
}

#[test]
fn delays_grow_by_half_up_to_the_cap() {
    let p = local_like();
    assert_eq!(p.delay_after_attempt(1), 1000);
    assert_eq!(p.delay_after_attempt(2), 1500);
    assert_eq!(p.delay_after_attempt(3), 2250);
    assert_eq!(p.delay_after_attempt(4), 3375);
    assert_eq!(p.delay_after_attempt(5), 5000);
    assert_eq!(p.delay_after_attempt(6), 5000);
    assert_eq!(p.delay_after_attempt(u32::MAX), 5000);
}

#[test]
fn delays_double_without_cap() {
    let p = PollPolicy::new(3, 0, 100, 2000, None, 50).unwrap();
    assert_eq!(p.delay_after_attempt(1), 100);
    assert_eq!(p.delay_after_attempt(2), 200);
    assert_eq!(p.delay_after_attempt(3), 400);
    assert_eq!(p.delay_after_attempt(11), 102_400);
}

#[test]
fn delay_after_no_failure_is_the_initial_delay() {
    let p = local_like();
    assert_eq!(p.delay_after_attempt(0), 1000);
}

#[test]
fn initial_delay_above_cap_is_capped() {
    let p = PollPolicy::new(3, 0, 9000, 1500, Some(5000), 50).unwrap();
    assert_eq!(p.next_delay_from_start(), 5000);
    assert_eq!(p.delay_after_attempt(1), 5000);
    assert_eq!(p.delay_after_attempt(2), 5000);
}

#[test]
fn delays_round_down_to_whole_milliseconds() {
    let p = PollPolicy::new(5, 0, 3, 1500, None, 50).unwrap();
    assert_eq!(p.delay_after_attempt(1), 3);
    assert_eq!(p.delay_after_attempt(2), 4);
    assert_eq!(p.delay_after_attempt(3), 6);
    assert_eq!(p.delay_after_attempt(4), 9);
    assert_eq!(p.next_delay(9), 13);
}

#[test]
fn delays_saturate_at_the_largest_duration() {
    let p = PollPolicy::new(5, 0, u64::MAX / 2 + 1, 2000, None, 50).unwrap();
    assert_eq!(p.delay_after_attempt(1), u64::MAX / 2 + 1);
    assert_eq!(p.delay_after_attempt(2), u64::MAX);
    assert_eq!(p.delay_after_attempt(3), u64::MAX);
    assert_eq!(p.next_delay(u64::MAX), u64::MAX);
}

#[test]
fn zero_initial_delay_stays_zero() {
    let p = PollPolicy::new(5, 0, 0, 2000, None, 50).unwrap();
    assert_eq!(p.delay_after_attempt(1), 0);
    assert_eq!(p.delay_after_attempt(1000), 0);
}

#[test]
fn unit_multiplier_keeps_the_delay() {
    let p = PollPolicy::new(5, 0, 250, 1000, None, 50).unwrap();
    assert_eq!(p.delay_after_attempt(1), 250);
    assert_eq!(p.delay_after_attempt(4_000_000_000), 250);
}

#[test]
fn wait_before_first_attempt_is_the_startup_delay() {
    let p = PollPolicy::new(5, 700, 100, 2000, None, 50).unwrap();
    assert_eq!(p.wait_before_attempt(0), 700);
    assert_eq!(p.wait_before_attempt(1), 700);
    assert_eq!(p.wait_before_attempt(2), 100);
    assert_eq!(p.wait_before_attempt(3), 200);
    assert_eq!(p.wait_before_attempt(4), 400);
}

#[test]
fn waits_never_shrink_and_never_exceed_the_cap() {
    let p = PollPolicy::new(40, 0, 7, 1337, Some(90_000), 50).unwrap();
    let mut previous = p.wait_before_attempt(2);
    for attempt in 3..=40u32 {
        let wait = p.wait_before_attempt(attempt);
        assert!(wait >= previous);
        assert!(wait <= 90_000);
        previous = wait;
    }
    assert_eq!(previous, 90_000);
}

#[test]
fn whole_multiplier_matches_the_power_formula() {
    let p = PollPolicy::new(20, 0, 5, 3000, Some(1_000_000), 50).unwrap();
    let mut power: u64 = 1;
    for failed in 1..=20u32 {
        let exact = 5 * power;
        assert_eq!(p.delay_after_attempt(failed), exact.min(1_000_000));
        power = power.saturating_mul(3).min(1_000_000_000);
    }
}
