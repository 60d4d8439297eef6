use mysqlpinger::outcome::{classify, AttemptOutcome, ConnectOutcome};
use mysqlpinger::pinger::{next_attempt, Decision, MySQLPinger, PingError, ScriptStep};

fn probe(forever: bool, max_retry: u64) -> MySQLPinger {
    MySQLPinger::new(
        String::from("127.0.0.1"),
        3306,
        String::from("root"),
        Some(String::from("secret")),
        String::from("sys"),
        1,
        0,
        forever,
        max_retry,
    )
}

fn retryable(desc: Option<&str>) -> ScriptStep {
    ScriptStep {
        outcome: ConnectOutcome::CouldNotConnect {
            description: desc.map(String::from),
        },
        cancel_during_wait: false,
    }
}

fn success() -> ScriptStep {
    ScriptStep {
        outcome: ConnectOutcome::Connected { alive: true },
        cancel_during_wait: false,
    }
}

#[test]
fn success_on_first_attempt() {
    let p = probe(false, 9);
    let report = p.ping(&vec![success(), success()]).unwrap();
    assert!(matches!(report.result, Ok(())));
    assert_eq!(report.connector_calls, 1);
    assert_eq!(report.events.len(), 0);
}

#[test]
fn retry_then_success() {
    let p = probe(false, 9);
    let script = vec![
        retryable(Some("Connection refused")),
        retryable(None),
        success(),
    ];
    let report = p.ping(&script).unwrap();
    assert!(matches!(report.result, Ok(())));
    assert_eq!(report.connector_calls, 3);
    assert_eq!(report.events.len(), 2);
    assert_eq!(report.events[0].attempt, 1);
    assert_eq!(
        report.events[0].description.as_deref(),
        Some("Connection refused")
    );
    assert_eq!(report.events[1].attempt, 2);
    assert_eq!(report.events[1].description, None);
}

#[test]
fn exhaustion_after_max_retry_plus_one_calls() {
    let p = probe(false, 2);
    let script = vec![
        retryable(None),
        retryable(None),
        retryable(None),
        retryable(None),
        retryable(None),
    ];
    let report = p.ping(&script).unwrap();
    assert!(matches!(report.result, Err(PingError::MaxRetryExceeded)));
    assert_eq!(report.connector_calls, 3);
    assert_eq!(report.events.len(), 3);
}

#[test]
fn bounded_zero_retries_means_one_attempt() {
    let p = probe(false, 0);
    let report = p.ping(&vec![retryable(None), retryable(None)]).unwrap();
    assert!(matches!(report.result, Err(PingError::MaxRetryExceeded)));
    assert_eq!(report.connector_calls, 1);
}

#[test]
fn unbounded_never_exhausts() {
    let p = probe(true, 0);
    let script: Vec<ScriptStep> = (0..100).map(|_| retryable(None)).collect();
    // The loop outlives the script instead of reporting exhaustion.
    assert!(p.ping(&script).is_none());
}

#[test]
fn unbounded_stops_on_success() {
    let p = probe(true, 0);
    let mut script: Vec<ScriptStep> = (0..5).map(|_| retryable(None)).collect();
    script.push(success());
    let report = p.ping(&script).unwrap();
    assert!(matches!(report.result, Ok(())));
    assert_eq!(report.connector_calls, 6);
    assert_eq!(report.events.len(), 5);
}

#[test]
fn cancellation_during_wait_prevents_next_attempt() {
    let p = probe(false, 9);
    let script = vec![
        ScriptStep {
            outcome: ConnectOutcome::CouldNotConnect { description: None },
            cancel_during_wait: true,
        },
        success(),
        success(),
    ];
    let report = p.ping(&script).unwrap();
    assert!(matches!(report.result, Err(PingError::Canceled)));
    assert_eq!(report.connector_calls, 1);
    assert_eq!(report.events.len(), 1);
}

#[test]
fn stop_before_ping_cancels_without_any_attempt() {
    let mut p = probe(false, 9);
    p.stop();
    let report = p.ping(&vec![success()]).unwrap();
    assert!(matches!(report.result, Err(PingError::Canceled)));
    assert_eq!(report.connector_calls, 0);
}

#[test]
fn stop_is_idempotent() {
    let mut once = probe(true, 0);
    once.stop();
    let mut twice = probe(true, 0);
    twice.stop();
    twice.stop();
    assert!(once.canceled);
    assert!(twice.canceled);
    let script = vec![retryable(None), success()];
    let r1 = once.ping(&script).unwrap();
    let r2 = twice.ping(&script).unwrap();
    assert!(matches!(r1.result, Err(PingError::Canceled)));
    assert!(matches!(r2.result, Err(PingError::Canceled)));
    assert_eq!(r1.connector_calls, r2.connector_calls);
    assert_eq!(r1.events.len(), r2.events.len());
}

#[test]
fn fatal_error_short_circuits_regardless_of_budget() {
    let p = probe(false, 9);
    let script = vec![
        ScriptStep {
            outcome: ConnectOutcome::Other {
                error: String::from("Access denied for user 'root'"),
            },
            cancel_during_wait: false,
        },
        success(),
    ];
    let report = p.ping(&script).unwrap();
    match report.result {
        Err(PingError::Fatal { error }) => {
            assert_eq!(error, "Access denied for user 'root'");
        }
        other => panic!("expected a fatal result, got {:?}", other.is_ok()),
    }
    assert_eq!(report.connector_calls, 1);
    assert_eq!(report.events.len(), 0);

    let unbounded = probe(true, 0);
    let script = vec![
        ScriptStep {
            outcome: ConnectOutcome::Other {
                error: String::from("bad handshake"),
            },
            cancel_during_wait: false,
        },
        success(),
    ];
    let report = unbounded.ping(&script).unwrap();
    assert!(matches!(report.result, Err(PingError::Fatal { .. })));
    assert_eq!(report.connector_calls, 1);
}

#[test]
fn connected_but_not_alive_is_retryable() {
    let p = probe(false, 9);
    let script = vec![
        ScriptStep {
            outcome: ConnectOutcome::Connected { alive: false },
            cancel_during_wait: false,
        },
        success(),
    ];
    let report = p.ping(&script).unwrap();
    assert!(matches!(report.result, Ok(())));
    assert_eq!(report.connector_calls, 2);
    assert_eq!(report.events.len(), 1);
    assert_eq!(report.events[0].description, None);
}

#[test]
fn classify_timeout_carries_fixed_description() {
    let out = classify(&ConnectOutcome::ConnectTimeout);
    match out {
        AttemptOutcome::RetryableFailure { description } => {
            assert_eq!(description.as_deref(), Some("Connection timeout"));
        }
        _ => panic!("a connect timeout must classify as retryable"),
    }
}

#[test]
fn classify_live_connection_is_success() {
    assert!(matches!(
        classify(&ConnectOutcome::Connected { alive: true }),
        AttemptOutcome::Success
    ));
}

#[test]
fn classify_other_error_is_fatal() {
    let out = classify(&ConnectOutcome::Other {
        error: String::from("protocol violation"),
    });
    match out {
        AttemptOutcome::FatalFailure { error } => assert_eq!(error, "protocol violation"),
        _ => panic!("an unclassified connector error must be fatal"),
    }
}

#[test]
fn decision_order_checks_exhaustion_before_cancellation() {
    let mut p = probe(false, 2);
    p.stop();
    assert_eq!(p.decide(4), Decision::Exhausted);
    assert_eq!(p.decide(3), Decision::Canceled);
    let fresh = probe(false, 2);
    assert_eq!(fresh.decide(3), Decision::Proceed);
    assert_eq!(fresh.decide(4), Decision::Exhausted);
}

#[test]
fn decision_unbounded_never_exhausts() {
    let p = probe(true, 0);
    assert_eq!(p.decide(u64::MAX), Decision::Proceed);
}

#[test]
fn max_attempt_symbol_renders_budget() {
    assert_eq!(probe(true, 0).max_attempt_symbol(), "\u{267e} ");
    assert_eq!(probe(false, 9).max_attempt_symbol(), "10");
    assert_eq!(probe(false, 0).max_attempt_symbol(), "1");
    assert_eq!(probe(false, 122).max_attempt_symbol(), "123");
}

#[test]
fn ping_error_messages() {
    assert_eq!(
        PingError::MaxRetryExceeded.message(),
        "Max retry count exceeded"
    );
    assert_eq!(PingError::Canceled.message(), "Canceled");
    assert_eq!(
        PingError::Fatal {
            error: String::from("bad credentials")
        }
        .message(),
        "bad credentials"
    );
}

#[test]
fn attempt_counter_wraps_at_the_limit() {
    assert_eq!(next_attempt(1), 2);
    assert_eq!(next_attempt(u64::MAX), 0);
}
