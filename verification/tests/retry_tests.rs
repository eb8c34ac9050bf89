use wp_connectors::retry::{
    classify, decide, run_policy, AttemptOutcome, OutcomeClass, RetryDecision, RetryOutcome,
    RetryPolicy,
};

#[test]
fn two_server_errors_then_success_makes_exactly_three_attempts() {
    let policy = RetryPolicy::standard();
    let outcomes = vec![
        AttemptOutcome::Status(503),
        AttemptOutcome::Status(500),
        AttemptOutcome::Status(200),
    ];
    let (result, attempts) = run_policy(&policy, &outcomes);
    assert_eq!(result, RetryOutcome::Succeeded);
    assert_eq!(attempts, 3);
}

#[test]
fn client_error_fails_immediately_after_one_attempt() {
    let policy = RetryPolicy::standard();
    let outcomes = vec![
        AttemptOutcome::Status(400),
        AttemptOutcome::Status(200),
        AttemptOutcome::Status(200),
    ];
    let (result, attempts) = run_policy(&policy, &outcomes);
    assert_eq!(result, RetryOutcome::TerminalFailure);
    assert_eq!(attempts, 1);
}

#[test]
fn exhausting_all_attempts_is_distinct_from_a_rejection() {
    let policy = RetryPolicy::standard();
    let outcomes = vec![
        AttemptOutcome::Timeout,
        AttemptOutcome::ConnectFailure,
        AttemptOutcome::Status(502),
    ];
    let (result, attempts) = run_policy(&policy, &outcomes);
    assert_eq!(result, RetryOutcome::RetriesExhausted);
    assert_eq!(attempts, 3);
}

#[test]
fn classification_follows_the_status_bands() {
    assert_eq!(classify(AttemptOutcome::Status(200)), OutcomeClass::Success);
    assert_eq!(classify(AttemptOutcome::Status(299)), OutcomeClass::Success);
    assert_eq!(classify(AttemptOutcome::Status(300)), OutcomeClass::Terminal);
    assert_eq!(classify(AttemptOutcome::Status(404)), OutcomeClass::Terminal);
    assert_eq!(classify(AttemptOutcome::Status(500)), OutcomeClass::Retryable);
    assert_eq!(classify(AttemptOutcome::Status(599)), OutcomeClass::Retryable);
    assert_eq!(classify(AttemptOutcome::Status(600)), OutcomeClass::Terminal);
    assert_eq!(classify(AttemptOutcome::Timeout), OutcomeClass::Retryable);
    assert_eq!(classify(AttemptOutcome::ConnectFailure), OutcomeClass::Retryable);
}

#[test]
fn backoff_schedule_holds_at_its_last_delay() {
    let policy = RetryPolicy::standard();
    assert_eq!(policy.backoff_delay(0), 200);
    assert_eq!(policy.backoff_delay(1), 500);
    assert_eq!(policy.backoff_delay(2), 500);
    assert_eq!(policy.backoff_delay(9), 500);
}

#[test]
fn per_attempt_decisions_drive_the_loop() {
    let policy = RetryPolicy::standard();
    assert_eq!(
        decide(&policy, 0, AttemptOutcome::Status(204)),
        RetryDecision::Done
    );
    assert_eq!(
        decide(&policy, 0, AttemptOutcome::Status(403)),
        RetryDecision::Fail
    );
    assert_eq!(
        decide(&policy, 0, AttemptOutcome::Status(500)),
        RetryDecision::RetryAfter(200)
    );
    assert_eq!(
        decide(&policy, 1, AttemptOutcome::Timeout),
        RetryDecision::RetryAfter(500)
    );
    assert_eq!(
        decide(&policy, 2, AttemptOutcome::Status(500)),
        RetryDecision::FailExhausted
    );
}
