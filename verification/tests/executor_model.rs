use pretackler::executor::{
    attempt_decision, run_job, should_retry_flags, transport_kind_from, AttemptAction,
    AttemptOutcome, TransportKind, MAX_ATTEMPTS,
};
use pretackler::fault::{inject_on_attempt, injected_outcome, parse_fault, FaultKind};
use pretackler::retry::{backoff_delay_ms, is_retryable_status};
use pretackler::transaction::{staging_file_name, StagingOutput};

fn no_deltas() -> Vec<Vec<Vec<u8>>> {
    let mut v: Vec<Vec<Vec<u8>>> = Vec::new();
    for _ in 0..MAX_ATTEMPTS {
        v.push(Vec::new());
    }
    v
}

#[test]
fn retryable_status_classes() {
    assert!(is_retryable_status(429));
    assert!(is_retryable_status(500));
    assert!(is_retryable_status(503));
    assert!(is_retryable_status(599));
    assert!(!is_retryable_status(200));
    assert!(!is_retryable_status(404));
    assert!(!is_retryable_status(600));
    assert!(!is_retryable_status(301));
}

#[test]
fn backoff_doubles_until_cap() {
    assert_eq!(backoff_delay_ms(1, 500, 2, 30000), 500);
    assert_eq!(backoff_delay_ms(2, 500, 2, 30000), 1000);
    assert_eq!(backoff_delay_ms(3, 500, 2, 30000), 2000);
    assert_eq!(backoff_delay_ms(4, 500, 2, 30000), 4000);
    assert_eq!(backoff_delay_ms(6, 500, 2, 30000), 16000);
    // 500 * 2^6 = 32000 exceeds the cap
    assert_eq!(backoff_delay_ms(7, 500, 2, 30000), 30000);
    assert_eq!(backoff_delay_ms(20, 500, 2, 30000), 30000);
}

#[test]
fn decision_commits_on_completed() {
    let r = attempt_decision(&AttemptOutcome::Completed, 1, 5);
    assert!(matches!(r, AttemptAction::Commit));
}

#[test]
fn decision_retries_retryable_with_attempts_left() {
    let r = attempt_decision(&AttemptOutcome::HttpStatus(429), 1, 5);
    assert!(matches!(r, AttemptAction::Retry(500)));
    let r = attempt_decision(&AttemptOutcome::IdleTimeout, 2, 5);
    assert!(matches!(r, AttemptAction::Retry(1000)));
    let r = attempt_decision(&AttemptOutcome::Transport(TransportKind::Connect), 3, 5);
    assert!(matches!(r, AttemptAction::Retry(2000)));
}

#[test]
fn decision_fails_terminal_or_exhausted() {
    // a non-retryable status is terminal at once
    let r = attempt_decision(&AttemptOutcome::HttpStatus(404), 1, 5);
    assert!(matches!(r, AttemptAction::Fail));
    // a retryable outcome on the last attempt is terminal
    let r = attempt_decision(&AttemptOutcome::HttpStatus(429), 5, 5);
    assert!(matches!(r, AttemptAction::Fail));
    let r = attempt_decision(&AttemptOutcome::Transport(TransportKind::Other), 1, 5);
    assert!(matches!(r, AttemptAction::Fail));
}

#[test]
fn forced_429_twice_then_success_sleeps_twice_and_commits() {
    let outcomes = vec![
        AttemptOutcome::HttpStatus(429),
        AttemptOutcome::HttpStatus(429),
        AttemptOutcome::Completed,
        AttemptOutcome::Completed,
        AttemptOutcome::Completed,
    ];
    let mut deltas = no_deltas();
    deltas[2] = vec![b"He".to_vec(), b"llo".to_vec()];
    let (run, _) = run_job(&outcomes, &deltas, MAX_ATTEMPTS);
    assert!(run.committed);
    assert_eq!(run.attempts_used, 3);
    assert_eq!(run.sleeps, vec![500, 1000]);
    assert_eq!(run.published, Some(b"Hello".to_vec()));
}

#[test]
fn exhausted_attempts_publish_nothing() {
    let outcomes = vec![AttemptOutcome::HttpStatus(500); MAX_ATTEMPTS];
    let mut deltas = no_deltas();
    // even attempts that staged partial content leave nothing behind
    deltas[0] = vec![b"partial".to_vec()];
    let (run, _) = run_job(&outcomes, &deltas, MAX_ATTEMPTS);
    assert!(!run.committed);
    assert_eq!(run.attempts_used, MAX_ATTEMPTS);
    assert_eq!(run.sleeps, vec![500, 1000, 2000, 4000]);
    assert_eq!(run.published, None);
}

#[test]
fn terminal_status_fails_without_sleeping() {
    let outcomes = vec![AttemptOutcome::HttpStatus(404); MAX_ATTEMPTS];
    let (run, _) = run_job(&outcomes, &no_deltas(), MAX_ATTEMPTS);
    assert!(!run.committed);
    assert_eq!(run.attempts_used, 1);
    assert!(run.sleeps.is_empty());
    assert_eq!(run.published, None);
}

#[test]
fn published_content_is_concatenation_in_arrival_order() {
    let outcomes = vec![AttemptOutcome::Completed; MAX_ATTEMPTS];
    let mut deltas = no_deltas();
    deltas[0] = vec![b"a".to_vec(), b"bc".to_vec(), b"".to_vec(), b"d".to_vec()];
    let (run, _) = run_job(&outcomes, &deltas, MAX_ATTEMPTS);
    assert!(run.committed);
    assert_eq!(run.attempts_used, 1);
    assert_eq!(run.published, Some(b"abcd".to_vec()));
}

#[test]
fn staging_publishes_nothing_until_commit() {
    let mut tx = StagingOutput::open();
    tx.append_delta(&b"part one, ".to_vec());
    tx.append_delta(&b"part two".to_vec());
    // nothing is observable at the destination yet
    let mut tx2 = StagingOutput::open();
    tx2.append_delta(&b"thrown away".to_vec());
    tx2.discard();
    tx.commit();
    assert_eq!(tx.into_content(), b"part one, part two".to_vec());
}

#[test]
fn parse_fault_selectors() {
    assert_eq!(parse_fault(Some("429")), Some(FaultKind::Status429));
    assert_eq!(parse_fault(Some("5xx")), Some(FaultKind::Status500));
    assert_eq!(parse_fault(Some("5XX")), Some(FaultKind::Status500));
    assert_eq!(parse_fault(Some("500")), Some(FaultKind::Status500));
    assert_eq!(parse_fault(Some("idle")), Some(FaultKind::Idle));
    assert_eq!(parse_fault(Some("IDLE")), Some(FaultKind::Idle));
    assert_eq!(parse_fault(Some("nothing")), None);
    assert_eq!(parse_fault(None), None);
}

#[test]
fn injected_outcomes_match_selector() {
    assert_eq!(
        injected_outcome(&Some(FaultKind::Status429)),
        Some(AttemptOutcome::HttpStatus(429))
    );
    assert_eq!(
        injected_outcome(&Some(FaultKind::Status500)),
        Some(AttemptOutcome::HttpStatus(500))
    );
    assert_eq!(injected_outcome(&Some(FaultKind::Idle)), Some(AttemptOutcome::IdleTimeout));
    assert_eq!(injected_outcome(&None), None);
}

#[test]
fn staging_names_carry_the_suffix() {
    assert_eq!(staging_file_name("notes.md.summary.v1.md", "1a2b"), "notes.md.summary.v1.md.tmp-1a2b");
}

#[test]
fn transport_classification_follows_the_classifier_answers() {
    assert_eq!(transport_kind_from(true, true, true), TransportKind::Timeout);
    assert_eq!(transport_kind_from(false, true, true), TransportKind::Connect);
    assert_eq!(transport_kind_from(false, false, true), TransportKind::Request);
    assert_eq!(transport_kind_from(false, false, false), TransportKind::Other);
    assert!(should_retry_flags(true, false, false));
    assert!(should_retry_flags(false, true, false));
    assert!(should_retry_flags(false, false, true));
    assert!(!should_retry_flags(false, false, false));
}

#[test]
fn injection_falls_through_on_the_final_attempt() {
    for attempt in 1..MAX_ATTEMPTS {
        assert_eq!(
            inject_on_attempt(&Some(FaultKind::Status429), attempt, MAX_ATTEMPTS),
            Some(AttemptOutcome::HttpStatus(429))
        );
        assert_eq!(
            inject_on_attempt(&Some(FaultKind::Idle), attempt, MAX_ATTEMPTS),
            Some(AttemptOutcome::IdleTimeout)
        );
    }
    // the final attempt runs for real
    assert_eq!(inject_on_attempt(&Some(FaultKind::Status429), MAX_ATTEMPTS, MAX_ATTEMPTS), None);
    assert_eq!(inject_on_attempt(&Some(FaultKind::Idle), MAX_ATTEMPTS, MAX_ATTEMPTS), None);
    assert_eq!(inject_on_attempt(&None, 1, MAX_ATTEMPTS), None);
}
