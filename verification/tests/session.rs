use graph_util::backoff::retry_strategy;
use graph_util::backoff::MAX_DELAY_MS;
use graph_util::outcome::strip_timeout;
use graph_util::outcome::AttemptOutcome;
use graph_util::outcome::TimeoutError;
use graph_util::outcome::TimerFault;
use graph_util::policy::Action;
use graph_util::policy::Attempt;
use graph_util::policy::RetryNotice;
use graph_util::property::RetryConfigProperty;
use graph_util::retry;
use graph_util::time::TimeSpan;

fn retried<I, E>(action: Action<I, E>) -> Attempt<I, E> {
    match action {
        Action::Retry(next) => next,
        Action::Finish(_) => panic!("the session is over"),
    }
}

#[test]
fn session_opens_with_the_first_attempt() {
    let session = retry::<u8, u8>("open").limit(3).timeout_secs(2).start();
    assert!(session.is_active());
    assert_eq!(session.attempt_count(), 0);
    assert_eq!(session.operation_name(), "open");
    let first = session.first_attempt();
    assert_eq!(first.number, 1);
    assert_eq!(first.delay_ms, 0);
    assert_eq!(first.timeout, Some(TimeSpan::from_secs(2)));
    assert_eq!(first.notice, None);
}

#[test]
fn step_retries_a_failure_and_reports_it() {
    let mut session = retry::<u8, u8>("report").no_limit().no_timeout().start();
    let next = retried(session.step(AttemptOutcome::InnerFailure(9)));
    assert_eq!(next.number, 2);
    assert!(next.delay_ms <= 2);
    assert_eq!(next.timeout, None);
    assert_eq!(next.notice, Some(RetryNotice::Failed { attempt: 1, result: Err(9) }));
    assert_eq!(session.attempt_count(), 1);
    assert!(session.is_active());
    let next = retried(session.step(AttemptOutcome::InnerFailure(8)));
    assert_eq!(next.number, 3);
    assert!(next.delay_ms <= 4);
    assert_eq!(next.notice, Some(RetryNotice::Failed { attempt: 2, result: Err(8) }));
}

#[test]
fn step_finishes_on_success() {
    let mut session = retry::<u8, u8>("done").no_limit().no_timeout().start();
    assert_eq!(session.step(AttemptOutcome::Success(4)), Action::Finish(Ok(4)));
    assert!(!session.is_active());
    assert_eq!(session.attempt_count(), 1);
}

#[test]
fn step_reports_only_from_the_threshold() {
    let mut session = retry::<u8, u8>("quiet").log_after(3).no_limit().timeout_secs(1).start();
    assert_eq!(retried(session.step(AttemptOutcome::InnerFailure(1))).notice, None);
    assert_eq!(retried(session.step(AttemptOutcome::DeadlineExceeded)).notice, None);
    assert_eq!(
        retried(session.step(AttemptOutcome::DeadlineExceeded)).notice,
        Some(RetryNotice::TimedOut { attempt: 3 })
    );
    assert_eq!(
        retried(session.step(AttemptOutcome::InnerFailure(6))).notice,
        Some(RetryNotice::Failed { attempt: 4, result: Err(6) })
    );
    assert_eq!(session.step(AttemptOutcome::Success(7)), Action::Finish(Ok(7)));
}

#[test]
fn step_never_reports_without_logging() {
    let mut session = retry::<u8, u8>("silent").no_logging().no_limit().timeout_secs(1).start();
    for _ in 0..50 {
        assert_eq!(retried(session.step(AttemptOutcome::DeadlineExceeded)).notice, None);
    }
}

#[test]
fn step_retries_a_deadline_whatever_the_predicate() {
    let mut session = retry::<u8, u8>("deadline")
        .when(|_: &Result<u8, u8>| false)
        .limit(3)
        .timeout_secs(1)
        .start();
    let next = retried(session.step(AttemptOutcome::DeadlineExceeded));
    assert_eq!(next.notice, Some(RetryNotice::TimedOut { attempt: 1 }));
    let next = retried(session.step(AttemptOutcome::DeadlineExceeded));
    assert_eq!(next.number, 3);
    assert_eq!(
        session.step(AttemptOutcome::DeadlineExceeded),
        Action::Finish(Err(TimeoutError::Elapsed))
    );
    assert!(!session.is_active());
    assert_eq!(session.attempt_count(), 3);
}

#[test]
fn step_ends_with_the_last_error_at_the_limit() {
    let mut session = retry::<u8, u8>("limit").limit(2).no_timeout().start();
    retried(session.step(AttemptOutcome::InnerFailure(1)));
    assert_eq!(
        session.step(AttemptOutcome::InnerFailure(2)),
        Action::Finish(Err(TimeoutError::Inner(2)))
    );
}

#[test]
fn outcomes_are_classified() {
    let done: AttemptOutcome<u8, u8> = AttemptOutcome::from_result(Ok(1));
    assert_eq!(done, AttemptOutcome::Success(1));
    let failed: AttemptOutcome<u8, u8> = AttemptOutcome::from_result(Err(2));
    assert_eq!(failed, AttemptOutcome::InnerFailure(2));
    assert_eq!(AttemptOutcome::<u8, u8>::from_timed(Ok(1)), AttemptOutcome::Success(1));
    assert_eq!(
        AttemptOutcome::<u8, u8>::from_timed(Err(TimeoutError::Inner(2))),
        AttemptOutcome::InnerFailure(2)
    );
    let late = AttemptOutcome::<u8, u8>::from_timed(Err(TimeoutError::Elapsed));
    assert_eq!(late, AttemptOutcome::DeadlineExceeded);
    assert!(late.is_elapsed());
    assert!(!late.is_timer());
    let fault: AttemptOutcome<u8, u8> = AttemptOutcome::TimerFault(TimerFault::Shutdown);
    assert!(fault.is_timer());
    assert!(!fault.is_elapsed());
    assert!(!failed.is_elapsed());
}

#[test]
fn timeout_errors_tell_their_kind() {
    let inner = TimeoutError::inner(5u8);
    assert!(inner.is_inner());
    assert!(!inner.is_elapsed());
    assert_eq!(inner.into_inner(), Some(5));
    let elapsed: TimeoutError<u8> = TimeoutError::Elapsed;
    assert!(elapsed.is_elapsed());
    assert!(!elapsed.is_inner());
    assert_eq!(elapsed.into_inner(), None);
}

#[test]
fn strip_timeout_gives_the_inner_result() {
    assert_eq!(strip_timeout::<u8, u8>(Ok(3)), Ok(3));
    assert_eq!(strip_timeout::<u8, u8>(Err(TimeoutError::Inner(4))), Err(4));
}

#[test]
fn properties_are_decided_once() {
    let mut property: RetryConfigProperty<usize> = RetryConfigProperty::Unknown;
    assert!(!property.is_decided());
    property.set(5);
    assert!(property.is_decided());
    assert_eq!(property, RetryConfigProperty::Value(5));
    assert_eq!(property.unwrap(), Some(5));
    let mut property: RetryConfigProperty<usize> = RetryConfigProperty::Unknown;
    property.clear();
    assert!(property.is_decided());
    assert_eq!(property, RetryConfigProperty::Clear);
    assert_eq!(property.unwrap(), None);
}

#[test]
fn limited_strategy_has_one_delay_fewer_than_the_limit() {
    let mut strategy = retry_strategy(Some(5));
    let mut bound = 1;
    for _ in 0..4 {
        assert!(strategy.has_next());
        bound *= 2;
        let delay = strategy.next_delay().unwrap();
        assert!(delay <= bound);
    }
    assert!(!strategy.has_next());
    assert_eq!(strategy.next_delay(), None);
    assert_eq!(strategy.next_delay(), None);
}

#[test]
fn strategy_for_one_attempt_is_empty() {
    let mut strategy = retry_strategy(Some(1));
    assert!(!strategy.has_next());
    assert_eq!(strategy.next_delay(), None);
}

#[test]
fn unlimited_strategy_goes_on_under_the_cap() {
    let mut strategy = retry_strategy(None);
    let mut capped = Vec::new();
    for k in 0..200 {
        assert!(strategy.has_next());
        let delay = strategy.next_delay().unwrap();
        assert!(delay <= MAX_DELAY_MS);
        if k >= 14 {
            capped.push(delay);
        }
    }
    // Jitter shortens: the delays at the cap are not all the cap itself.
    assert!(capped.iter().any(|delay| *delay < MAX_DELAY_MS));
    // The cap is a cap on growth, not on jitter alone: most delays at the cap
    // are far above the first delays of the sequence.
    assert!(capped.iter().any(|delay| *delay > 64));
}

#[test]
fn time_spans_are_whole_numbers() {
    assert_eq!(TimeSpan::from_secs(30).as_secs(), 30);
    assert_eq!(TimeSpan::from_secs(30).subsec_nanos(), 0);
    assert_eq!(TimeSpan::from_millis(1_500).as_secs(), 1);
    assert_eq!(TimeSpan::from_millis(1_500).subsec_nanos(), 500_000_000);
    assert_eq!(TimeSpan::from_millis(999), TimeSpan::new(0, 999_000_000));
    assert_eq!(TimeSpan::from_millis(u64::MAX).as_secs(), 18_446_744_073_709_551);
    assert_eq!(TimeSpan::from_millis(u64::MAX).subsec_nanos(), 615_000_000);
    assert_eq!(TimeSpan::new(7, 8).subsec_nanos(), 8);
}
