use coinbase_agent_kit_blueprint::backoff::PollPolicy;
use coinbase_agent_kit_blueprint::poller::{
    action_for, advance, poll_scripted, start, PollAction, PollEvent, PollReport, PollState,
    PollVerdict,
};
use coinbase_agent_kit_blueprint::probe::{ProbeOutcome, TransportKind};

fn policy(max_attempts: u32) -> PollPolicy {
    PollPolicy::new(max_attempts, 0, 100, 2000, None, 50).unwrap()
}

fn timeout() -> ProbeOutcome {
    ProbeOutcome::TransportError {
        kind: TransportKind::Timeout,
        message: "deadline exceeded".to_string(),
    }
}

fn refused() -> ProbeOutcome {
    ProbeOutcome::TransportError {
        kind: TransportKind::ConnectionRefused,
        message: "connection refused".to_string(),
    }
}

fn unhealthy() -> ProbeOutcome {
    ProbeOutcome::Unhealthy {
        status: 503,
        body: "starting".to_string(),
    }
}

fn healthy() -> ProbeOutcome {
    ProbeOutcome::Healthy {
        body: "{}".to_string(),
    }
}

fn malformed() -> ProbeOutcome {
    ProbeOutcome::MalformedResponse {
        status: 200,
        body: "OK".to_string(),
    }
}

#[test]
fn always_unhealthy_fails_after_max_attempts() {
    for n in [1u32, 2, 3, 7, 15] {
        let script: Vec<ProbeOutcome> = (0..n + 4).map(|_| unhealthy()).collect();
        let report = poll_scripted(&policy(n), &script);
        assert_eq!(report.probes, n);
        assert_eq!(
            report.verdict,
            Some(PollVerdict::Failed {
                attempts_made: n,
                last_outcome: Some(unhealthy()),
            })
        );
        assert_eq!(report.waits_ms.len(), n as usize);
    }
}

#[test]
fn healthy_on_attempt_k_is_ready_after_k_probes() {
    for n in [1u32, 4, 9] {
        for k in 1..=n {
            let mut script: Vec<ProbeOutcome> = (1..k).map(|_| unhealthy()).collect();
            script.push(healthy());
            script.push(unhealthy());
            script.push(timeout());
            let report = poll_scripted(&policy(n), &script);
            assert_eq!(report.verdict, Some(PollVerdict::Ready));
            assert_eq!(report.probes, k);
        }
    }
}

#[test]
fn later_outcomes_do_not_matter() {
    let p = policy(5);
    let a = vec![unhealthy(), healthy(), unhealthy(), unhealthy(), unhealthy()];
    let b = vec![unhealthy(), healthy(), healthy(), timeout()];
    let c = vec![unhealthy(), healthy()];
    let ra = poll_scripted(&p, &a);
    assert_eq!(ra, poll_scripted(&p, &b));
    assert_eq!(ra, poll_scripted(&p, &c));
}

#[test]
fn same_script_same_report() {
    let p = PollPolicy::new(4, 30, 100, 1500, Some(200), 50).unwrap();
    let script = vec![timeout(), refused(), unhealthy(), malformed(), healthy()];
    let first = poll_scripted(&p, &script);
    let second = poll_scripted(&p, &script);
    assert_eq!(first, second);
    assert_eq!(
        first,
        PollReport {
            verdict: Some(PollVerdict::Failed {
                attempts_made: 4,
                last_outcome: Some(malformed()),
            }),
            probes: 4,
            waits_ms: vec![30, 100, 150, 200],
            total_wait_ms: 480,
        }
    );
}

#[test]
fn single_attempt_healthy_is_ready() {
    let report = poll_scripted(&policy(1), &vec![healthy(), healthy()]);
    assert_eq!(report.verdict, Some(PollVerdict::Ready));
    assert_eq!(report.probes, 1);
    assert_eq!(report.waits_ms, vec![0]);
}

#[test]
fn single_attempt_unhealthy_fails_without_backoff() {
    let report = poll_scripted(&policy(1), &vec![refused(), healthy()]);
    assert_eq!(
        report.verdict,
        Some(PollVerdict::Failed {
            attempts_made: 1,
            last_outcome: Some(refused()),
        })
    );
    assert_eq!(report.probes, 1);
    assert_eq!(report.waits_ms, vec![0]);
}

#[test]
fn healthy_at_the_last_attempt_is_ready() {
    let report = poll_scripted(&policy(3), &vec![timeout(), refused(), healthy()]);
    assert_eq!(
        report,
        PollReport {
            verdict: Some(PollVerdict::Ready),
            probes: 3,
            waits_ms: vec![0, 100, 200],
            total_wait_ms: 300,
        }
    );
}

#[test]
fn three_timeouts_fail_with_the_last_timeout() {
    let report = poll_scripted(&policy(3), &vec![timeout(), timeout(), timeout()]);
    assert_eq!(
        report,
        PollReport {
            verdict: Some(PollVerdict::Failed {
                attempts_made: 3,
                last_outcome: Some(timeout()),
            }),
            probes: 3,
            waits_ms: vec![0, 100, 200],
            total_wait_ms: 300,
        }
    );
}

#[test]
fn failure_carries_the_last_outcome_not_the_first() {
    let report = poll_scripted(&policy(2), &vec![timeout(), unhealthy()]);
    assert_eq!(
        report.verdict,
        Some(PollVerdict::Failed {
            attempts_made: 2,
            last_outcome: Some(unhealthy()),
        })
    );
}

#[test]
fn no_attempts_allowed_fails_at_once() {
    let report = poll_scripted(&policy(0), &vec![healthy()]);
    assert_eq!(
        report,
        PollReport {
            verdict: Some(PollVerdict::Failed {
                attempts_made: 0,
                last_outcome: None,
            }),
            probes: 0,
            waits_ms: vec![],
            total_wait_ms: 0,
        }
    );
    assert_eq!(
        start(&policy(0)),
        PollState::Failed {
            attempts_made: 0,
            last_outcome: None,
        }
    );
}

#[test]
fn script_that_ends_early_gives_no_verdict() {
    let report = poll_scripted(&policy(5), &vec![timeout(), unhealthy()]);
    assert_eq!(
        report,
        PollReport {
            verdict: None,
            probes: 2,
            waits_ms: vec![0, 100],
            total_wait_ms: 100,
        }
    );
    let empty = poll_scripted(&policy(5), &vec![]);
    assert_eq!(empty.verdict, None);
    assert_eq!(empty.probes, 0);
}

#[test]
fn malformed_response_is_ready_only_when_accepted() {
    let strict = policy(2);
    let mut lenient = policy(2);
    lenient.accept_malformed = true;
    let script = vec![malformed(), malformed()];
    assert_eq!(
        poll_scripted(&strict, &script).verdict,
        Some(PollVerdict::Failed {
            attempts_made: 2,
            last_outcome: Some(malformed()),
        })
    );
    let report = poll_scripted(&lenient, &script);
    assert_eq!(report.verdict, Some(PollVerdict::Ready));
    assert_eq!(report.probes, 1);
}

#[test]
fn machine_walks_wait_probe_wait() {
    let p = PollPolicy::new(2, 25, 100, 2000, None, 50).unwrap();
    let s0 = start(&p);
    assert_eq!(s0, PollState::Waiting { attempt: 1 });
    assert_eq!(action_for(&p, &s0), PollAction::Sleep { millis: 25 });
    let s1 = advance(&p, s0, PollEvent::Elapsed);
    assert_eq!(s1, PollState::Probing { attempt: 1 });
    assert_eq!(
        action_for(&p, &s1),
        PollAction::Probe {
            attempt: 1,
            timeout_ms: 50
        }
    );
    let s2 = advance(&p, s1, PollEvent::Outcome(timeout()));
    assert_eq!(s2, PollState::Waiting { attempt: 2 });
    assert_eq!(action_for(&p, &s2), PollAction::Sleep { millis: 100 });
    let s3 = advance(&p, s2, PollEvent::Elapsed);
    let s4 = advance(&p, s3, PollEvent::Outcome(unhealthy()));
    assert_eq!(
        s4,
        PollState::Failed {
            attempts_made: 2,
            last_outcome: Some(unhealthy()),
        }
    );
    assert!(s4.is_terminal());
    assert_eq!(action_for(&p, &s4), PollAction::Stop);
    assert_eq!(
        s4.into_verdict(),
        Some(PollVerdict::Failed {
            attempts_made: 2,
            last_outcome: Some(unhealthy()),
        })
    );
}

#[test]
fn machine_ignores_events_that_answer_nothing() {
    let p = policy(3);
    let waiting = advance(&p, start(&p), PollEvent::Outcome(healthy()));
    assert_eq!(waiting, PollState::Waiting { attempt: 1 });
    let probing = advance(&p, waiting, PollEvent::Elapsed);
    let still_probing = advance(&p, probing, PollEvent::Elapsed);
    assert_eq!(still_probing, PollState::Probing { attempt: 1 });
    let ready = advance(&p, still_probing, PollEvent::Outcome(healthy()));
    assert_eq!(ready, PollState::Ready { attempts_made: 1 });
    let after = advance(&p, ready, PollEvent::Outcome(timeout()));
    assert_eq!(after, PollState::Ready { attempts_made: 1 });
    let after = advance(&p, after, PollEvent::Elapsed);
    assert_eq!(after, PollState::Ready { attempts_made: 1 });
    assert_eq!(after.into_verdict(), Some(PollVerdict::Ready));
}

#[test]
fn running_state_has_no_verdict() {
    assert_eq!(PollState::Waiting { attempt: 1 }.into_verdict(), None);
    assert_eq!(PollState::Probing { attempt: 1 }.into_verdict(), None);
    assert!(!PollState::Waiting { attempt: 1 }.is_terminal());
}

#[test]
fn total_wait_is_the_sum_of_the_waits() {
    let p = PollPolicy::new(6, u64::MAX, u64::MAX, 1000, None, 50).unwrap();
    let script: Vec<ProbeOutcome> = (0..6).map(|_| unhealthy()).collect();
    let report = poll_scripted(&p, &script);
    assert_eq!(report.waits_ms, vec![u64::MAX; 6]);
    assert_eq!(report.total_wait_ms, 6 * (u64::MAX as u128));
    let q = PollPolicy::new(15, 0, 1000, 1500, Some(5000), 5000).unwrap();
    let all: Vec<ProbeOutcome> = (0..15).map(|_| unhealthy()).collect();
    let report = poll_scripted(&q, &all);
    let sum: u128 = report.waits_ms.iter().map(|w| *w as u128).sum();
    assert_eq!(report.total_wait_ms, sum);
    assert_eq!(sum, 0 + 1000 + 1500 + 2250 + 3375 + 10 * 5000);
}
