//! The staged configuration of a retry session.
//!
//! A configuration starts with [`retry`], takes an optional retry condition
//! and an optional decision on reporting, a decision on the attempt limit and
//! a decision on the timeout of one attempt, and then runs.

use crate::condition::RetryIf;
use crate::outcome::strip_timeout;
use crate::outcome::AttemptOutcome;
use crate::outcome::TimeoutError;
use crate::policy::Attempt;
use crate::policy::RetryPolicy;
use crate::property::RetryConfigProperty;
use crate::session::run_retry;
use crate::session::RetrySession;
use crate::time::TimeSpan;
use std::marker::PhantomData;
use vstd::prelude::*;

verus! {

/// The attempt number from which retries are reported where nothing was
/// decided about reporting.
pub const DEFAULT_LOG_AFTER: u64 = 1;

/// The threshold that no attempt followed by another reaches.
pub const NEVER_LOG: u64 = u64::MAX;

/// The first stage of a retry configuration.
pub struct RetryConfig<I, E, P> {
    operation_name: String,
    condition: RetryIf<P>,
    log_after: RetryConfigProperty<u64>,
    limit: RetryConfigProperty<usize>,
    phantom: PhantomData<(I, E)>,
}

/// A retry configuration whose attempts have a deadline.
pub struct RetryConfigWithTimeout<I, E, P> {
    inner: RetryConfig<I, E, P>,
    timeout: TimeSpan,
}

/// A retry configuration whose attempts take as long as they need.
pub struct RetryConfigNoTimeout<I, E, P> {
    inner: RetryConfig<I, E, P>,
}

/// The default condition, for a configuration whose predicate type is that of
/// `witness`.
fn retry_on_error<I, E, P: Fn(&Result<I, E>) -> bool>(witness: P) -> (condition: RetryIf<P>)
    ensures
        condition is Error,
{
    RetryIf::Error
}

/// Starts the configuration of a retry session for the operation of that
/// name. It retries on any error and reports every retry; nothing is decided
/// about the limit.
pub fn retry<I, E>(operation_name: &str) -> (config: RetryConfig<
    I,
    E,
    impl Fn(&Result<I, E>) -> bool,
>)
    ensures
        config.wf(),
        config.name() == operation_name@,
        config.condition() is Error,
        config.log_decision() is Unknown,
        config.limit_decision() is Unknown,
{
    let witness = |result: &Result<I, E>| -> bool { result.is_err() };
    RetryConfig {
        operation_name: operation_name.to_owned(),
        condition: retry_on_error(witness),
        log_after: RetryConfigProperty::Unknown,
        limit: RetryConfigProperty::Unknown,
        phantom: PhantomData,
    }
}

impl<I, E, P: Fn(&Result<I, E>) -> bool> RetryConfig<I, E, P> {
    /// The condition can be asked about every result, and a limit that was
    /// set admits at least one attempt.
    pub closed spec fn wf(&self) -> bool {
        &&& self.condition.total::<I, E>()
        &&& !(self.limit matches RetryConfigProperty::Value(limit) && limit == 0)
    }

    /// The name of the operation.
    pub closed spec fn name(&self) -> Seq<char> {
        self.operation_name@
    }

    /// The retry condition.
    pub closed spec fn condition(&self) -> RetryIf<P> {
        self.condition
    }

    /// What has been decided about reporting.
    pub closed spec fn log_decision(&self) -> RetryConfigProperty<u64> {
        self.log_after
    }

    /// What has been decided about the attempt limit.
    pub closed spec fn limit_decision(&self) -> RetryConfigProperty<usize> {
        self.limit
    }

    /// The attempt number from which a retry is reported: the one that was
    /// set; none that an attempt followed by another can have, where
    /// reporting was switched off; 1 where nothing was decided.
    pub open spec fn log_threshold(&self) -> u64 {
        match self.log_decision() {
            RetryConfigProperty::Value(min_attempts) => min_attempts,
            RetryConfigProperty::Clear => NEVER_LOG,
            RetryConfigProperty::Unknown => DEFAULT_LOG_AFTER,
        }
    }

    /// The policy of a session run from this configuration with the given
    /// timeout.
    pub open spec fn policy(&self, timeout: Option<TimeSpan>) -> RetryPolicy<P> {
        RetryPolicy {
            condition: self.condition(),
            log_after: self.log_threshold(),
            limit: self.limit_decision().value(),
            timeout,
        }
    }

    /// Whether the attempt limit has been decided.
    pub fn limit_decided(&self) -> (decided: bool)
        ensures
            decided == self.limit_decision().decided(),
    {
        self.limit.is_decided()
    }

    /// Whether anything has been decided about reporting.
    pub fn logging_decided(&self) -> (decided: bool)
        ensures
            decided == self.log_decision().decided(),
    {
        self.log_after.is_decided()
    }

    /// Sets a function used to determine if a retry is needed.
    /// Note: timeouts always trigger a retry.
    ///
    /// Overrides the default behaviour of retrying on any `Err`.
    pub fn when<Q>(self, predicate: Q) -> (config: RetryConfig<I, E, Q>) where
        Q: Fn(&Result<I, E>) -> bool,

        requires
            self.wf(),
            forall|result: &Result<I, E>| call_requires(predicate, (result,)),
        ensures
            config.wf(),
            config.condition() == RetryIf::Predicate(predicate),
            config.name() == self.name(),
            config.log_decision() == self.log_decision(),
            config.limit_decision() == self.limit_decision(),
    {
        RetryConfig {
            operation_name: self.operation_name,
            condition: RetryIf::Predicate(predicate),
            log_after: self.log_after,
            limit: self.limit,
            phantom: PhantomData,
        }
    }

    /// Only log retries after `min_attempts` failed attempts.
    pub fn log_after(self, min_attempts: u64) -> (config: Self)
        requires
            self.wf(),
            !self.log_decision().decided(),
        ensures
            config.wf(),
            config.log_decision() == RetryConfigProperty::Value(min_attempts),
            config.condition() == self.condition(),
            config.name() == self.name(),
            config.limit_decision() == self.limit_decision(),
    {
        let mut config = self;
        config.log_after.set(min_attempts);
        config
    }

    /// Never log failed attempts.
    pub fn no_logging(self) -> (config: Self)
        requires
            self.wf(),
            !self.log_decision().decided(),
        ensures
            config.wf(),
            config.log_decision() == RetryConfigProperty::<u64>::Clear,
            config.condition() == self.condition(),
            config.name() == self.name(),
            config.limit_decision() == self.limit_decision(),
    {
        let mut config = self;
        config.log_after.clear();
        config
    }

    /// Set a limit on how many retry attempts to make.
    pub fn limit(self, limit: usize) -> (config: Self)
        requires
            self.wf(),
            !self.limit_decision().decided(),
            limit >= 1,
        ensures
            config.wf(),
            config.limit_decision() == RetryConfigProperty::Value(limit),
            config.condition() == self.condition(),
            config.name() == self.name(),
            config.log_decision() == self.log_decision(),
    {
        let mut config = self;
        config.limit.set(limit);
        config
    }

    /// Allow unlimited retry attempts.
    pub fn no_limit(self) -> (config: Self)
        requires
            self.wf(),
            !self.limit_decision().decided(),
        ensures
            config.wf(),
            config.limit_decision() == RetryConfigProperty::<usize>::Clear,
            config.condition() == self.condition(),
            config.name() == self.name(),
            config.log_decision() == self.log_decision(),
    {
        let mut config = self;
        config.limit.clear();
        config
    }

    /// Set how long (in seconds) to wait for an attempt to complete before giving up on that
    /// attempt.
    pub fn timeout_secs(self, timeout_secs: u64) -> (config: RetryConfigWithTimeout<I, E, P>)
        requires
            self.wf(),
        ensures
            config.wf(),
            config.inner() == self,
            config.timeout().total_nanos() == timeout_secs * 1_000_000_000,
    {
        self.timeout(TimeSpan::from_secs(timeout_secs))
    }

    /// Set how long (in milliseconds) to wait for an attempt to complete before giving up on that
    /// attempt.
    pub fn timeout_millis(self, timeout_ms: u64) -> (config: RetryConfigWithTimeout<I, E, P>)
        requires
            self.wf(),
        ensures
            config.wf(),
            config.inner() == self,
            config.timeout().total_nanos() == timeout_ms * 1_000_000,
    {
        self.timeout(TimeSpan::from_millis(timeout_ms))
    }

    /// Set how long to wait for an attempt to complete before giving up on that attempt.
    pub fn timeout(self, timeout: TimeSpan) -> (config: RetryConfigWithTimeout<I, E, P>)
        requires
            self.wf(),
            timeout.wf(),
        ensures
            config.wf(),
            config.inner() == self,
            config.timeout() == timeout,
    {
        RetryConfigWithTimeout { inner: self, timeout }
    }

    /// Allow attempts to take as long as they need (or potentially hang forever).
    pub fn no_timeout(self) -> (config: RetryConfigNoTimeout<I, E, P>)
        requires
            self.wf(),
        ensures
            config.wf(),
            config.inner() == self,
    {
        RetryConfigNoTimeout { inner: self }
    }

    /// The session of this configuration with the given timeout.
    fn into_session(self, timeout: Option<TimeSpan>) -> (session: RetrySession<I, E, P>)
        requires
            self.wf(),
            self.limit_decision().decided(),
            timeout matches Some(span) ==> span.wf(),
        ensures
            session.wf(),
            session.active(),
            session.attempts() == 0,
            session.policy() == self.policy(timeout),
            session.name() == self.name(),
    {
        let log_after = match self.log_after {
            RetryConfigProperty::Value(min_attempts) => min_attempts,
            RetryConfigProperty::Clear => NEVER_LOG,
            RetryConfigProperty::Unknown => DEFAULT_LOG_AFTER,
        };
        let policy = RetryPolicy {
            condition: self.condition,
            log_after,
            limit: self.limit.unwrap(),
            timeout,
        };
        RetrySession::new(self.operation_name, policy)
    }
}

impl<I, E, P: Fn(&Result<I, E>) -> bool> RetryConfigWithTimeout<I, E, P> {
    /// The stage before is well formed and the timeout is a proper length of
    /// time.
    pub closed spec fn wf(&self) -> bool {
        self.inner.wf() && self.timeout.wf()
    }

    /// The stage before.
    pub closed spec fn inner(&self) -> RetryConfig<I, E, P> {
        self.inner
    }

    /// How long one attempt may take.
    pub closed spec fn timeout(&self) -> TimeSpan {
        self.timeout
    }

    /// The policy of the sessions of this configuration.
    pub open spec fn policy(&self) -> RetryPolicy<P> {
        self.inner().policy(Some(self.timeout()))
    }

    /// Whether the attempt limit has been decided, as `run` and `start` ask.
    pub fn limit_decided(&self) -> (decided: bool)
        ensures
            decided == self.inner().limit_decision().decided(),
    {
        self.inner.limit_decided()
    }

    /// A session of this configuration, to be taken one attempt at a time.
    pub fn start(self) -> (session: RetrySession<I, E, P>)
        requires
            self.wf(),
            self.inner().limit_decision().decided(),
        ensures
            session.wf(),
            session.active(),
            session.attempts() == 0,
            session.policy() == self.policy(),
            session.name() == self.inner().name(),
    {
        let timeout = self.timeout;
        self.inner.into_session(Some(timeout))
    }

    /// Rerun the provided function as many times as needed. The function is
    /// handed the attempt to make; it waits for the attempt's delay, runs the
    /// operation under the attempt's timeout and returns the result, or
    /// `Err(Elapsed)` where the deadline passed.
    pub fn run<F>(self, try_it: F) -> (result: Result<I, TimeoutError<E>>) where
        F: Fn(Attempt<I, E>) -> Result<I, TimeoutError<E>>,

        requires
            self.wf(),
            self.inner().limit_decision().decided(),
            forall|attempt: Attempt<I, E>| call_requires(try_it, (attempt,)),
        ensures
            exists|attempts: Seq<Attempt<I, E>>, outcomes: Seq<AttemptOutcome<I, E>>|
                self.policy().ran(try_it, attempts, outcomes, result),
    {
        run_retry(self.start(), try_it)
    }
}

impl<I, E, P: Fn(&Result<I, E>) -> bool> RetryConfigNoTimeout<I, E, P> {
    /// The stage before is well formed.
    pub closed spec fn wf(&self) -> bool {
        self.inner.wf()
    }

    /// The stage before.
    pub closed spec fn inner(&self) -> RetryConfig<I, E, P> {
        self.inner
    }

    /// The policy of the sessions of this configuration.
    pub open spec fn policy(&self) -> RetryPolicy<P> {
        self.inner().policy(None)
    }

    /// Whether the attempt limit has been decided, as `run` and `start` ask.
    pub fn limit_decided(&self) -> (decided: bool)
        ensures
            decided == self.inner().limit_decision().decided(),
    {
        self.inner.limit_decided()
    }

    /// A session of this configuration, to be taken one attempt at a time.
    pub fn start(self) -> (session: RetrySession<I, E, P>)
        requires
            self.wf(),
            self.inner().limit_decision().decided(),
        ensures
            session.wf(),
            session.active(),
            session.attempts() == 0,
            session.policy() == self.policy(),
            session.name() == self.inner().name(),
    {
        self.inner.into_session(None)
    }

    /// Rerun the provided function as many times as needed. The function is
    /// handed the attempt to make; it waits for the attempt's delay, runs the
    /// operation to completion and returns its result.
    pub fn run<F>(self, try_it: F) -> (result: Result<I, E>) where
        F: Fn(Attempt<I, E>) -> Result<I, E>,

        requires
            self.wf(),
            self.inner().limit_decision().decided(),
            forall|attempt: Attempt<I, E>| call_requires(try_it, (attempt,)),
        ensures
            exists|attempts: Seq<Attempt<I, E>>, outcomes: Seq<AttemptOutcome<I, E>>|
                self.policy().ran_to_completion(try_it, attempts, outcomes, result),
    {
        let ghost policy = self.policy();
        let session = self.start();
        let operation = &try_it;
        let with_timeout = |attempt: Attempt<I, E>| -> (reported: Result<I, TimeoutError<E>>)
            ensures
                !(reported matches Err(TimeoutError::Elapsed)),
                call_ensures(
                    *operation,
                    (attempt,),
                    AttemptOutcome::of_timed(reported).completed()->0,
                ),
            {
                // No timeout, so all errors are inner errors
                match operation(attempt) {
                    Ok(value) => Ok(value),
                    Err(err) => Err(TimeoutError::inner(err)),
                }
            };
        let result = run_retry(session, with_timeout);
        proof {
            let (attempts, outcomes) = choose|
                attempts: Seq<Attempt<I, E>>,
                outcomes: Seq<AttemptOutcome<I, E>>,
            | policy.ran(with_timeout, attempts, outcomes, result);
            assert forall|k: int|
                #![trigger attempts[k]]
                #![trigger outcomes[k]]
                0 <= k < attempts.len() implies outcomes[k].completed() is Some && call_ensures(
                try_it,
                (attempts[k],),
                outcomes[k].completed()->0,
            ) by {
                assert(call_ensures(with_timeout, (attempts[k],), outcomes[k].terminal()));
            }
            assert(outcomes.last().completed() is Some) by {
                assert(outcomes.last() == outcomes[attempts.len() - 1]);
            }
            assert(policy.ran_to_completion(
                try_it,
                attempts,
                outcomes,
                strip_spec(result),
            ));
        }
        // No timeout, so all errors are inner errors
        strip_timeout(result)
    }
}

/// The result of a session without deadlines, from the form that has a place
/// for an exceeded deadline.
pub open spec fn strip_spec<I, E>(result: Result<I, TimeoutError<E>>) -> Result<I, E> {
    match result {
        Ok(value) => Ok(value),
        Err(TimeoutError::Inner(err)) => Err(err),
        Err(TimeoutError::Elapsed) => arbitrary(),
    }
}

} // verus!
