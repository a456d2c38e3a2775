//! One retry session, taken one attempt at a time.
//!
//! The session decides; its caller acts. The caller makes the attempt that it
//! is handed (waiting first for the attempt's delay, under the attempt's
//! timeout), reports how it ended, and is told what to do next.

use crate::backoff::retry_strategy;
use crate::backoff::RetryStrategy;
use crate::outcome::AttemptOutcome;
use crate::outcome::TimeoutError;
use crate::policy::Action;
use crate::policy::Attempt;
use crate::policy::RetryNotice;
use crate::policy::RetryPolicy;
use std::marker::PhantomData;
use vstd::pervasive::unreached;
use vstd::prelude::*;

verus! {

/// The state of one retry session.
pub struct RetrySession<I, E, P> {
    operation_name: String,
    policy: RetryPolicy<P>,
    attempts: u64,
    active: bool,
    strategy: RetryStrategy,
    phantom: PhantomData<(I, E)>,
}

impl<I, E, P: Fn(&Result<I, E>) -> bool> RetrySession<I, E, P> {
    /// The policy is well formed and, while the session goes on, the delays
    /// handed out are as many as the attempts that have ended, and those left
    /// are as many as the attempts that the limit still allows.
    pub closed spec fn wf(&self) -> bool {
        &&& self.policy.wf::<I, E>()
        &&& self.strategy.wf()
        &&& self.active ==> {
            &&& self.attempts < self.policy.max_attempts()
            &&& self.strategy.issued() == self.attempts
            &&& self.strategy.remaining() == match self.policy.limit {
                Some(limit) => Some((limit - 1 - self.attempts) as nat),
                None => None,
            }
        }
    }

    /// The configuration that the session runs under.
    pub closed spec fn policy(&self) -> RetryPolicy<P> {
        self.policy
    }

    /// The name of the operation, for reports.
    pub closed spec fn name(&self) -> Seq<char> {
        self.operation_name@
    }

    /// How many attempts have ended.
    pub closed spec fn attempts(&self) -> nat {
        self.attempts as nat
    }

    /// Whether the session waits for the outcome of an attempt.
    pub closed spec fn active(&self) -> bool {
        self.active
    }

    /// A session under `policy` of which no attempt has been made.
    pub fn new(operation_name: String, policy: RetryPolicy<P>) -> (session: Self)
        requires
            policy.wf::<I, E>(),
        ensures
            session.wf(),
            session.active(),
            session.attempts() == 0,
            session.policy() == policy,
            session.name() == operation_name@,
    {
        let strategy = retry_strategy(policy.limit);
        RetrySession {
            operation_name,
            policy,
            attempts: 0,
            active: true,
            strategy,
            phantom: PhantomData,
        }
    }

    /// The name of the operation, for reports.
    pub fn operation_name(&self) -> (name: &String)
        ensures
            name@ == self.name(),
    {
        &self.operation_name
    }

    /// How many attempts have ended.
    pub fn attempt_count(&self) -> (count: u64)
        ensures
            count == self.attempts(),
    {
        self.attempts
    }

    /// Whether the session waits for the outcome of an attempt.
    pub fn is_active(&self) -> (active: bool)
        ensures
            active == self.active(),
    {
        self.active
    }

    /// The attempt that opens the session.
    pub fn first_attempt(&self) -> (first: Attempt<I, E>)
        ensures
            self.policy().opens_with(first),
    {
        Attempt { number: 1, delay_ms: 0, timeout: self.policy.timeout, notice: None }
    }

    /// Takes the outcome of the attempt that was asked for last and says
    /// what comes next. The attempt counts, whatever its outcome. Another
    /// attempt follows exactly when one is wanted and one is left: it is
    /// wanted after an exceeded deadline and wherever the retry condition
    /// says so of a completed attempt. Otherwise the session is over, and its
    /// result is that of this attempt.
    ///
    /// A timer fault is no outcome to go on from: the caller stops there.
    pub fn step(&mut self, outcome: AttemptOutcome<I, E>) -> (action: Action<I, E>)
        requires
            old(self).wf(),
            old(self).active(),
            !(outcome is TimerFault),
        ensures
            final(self).wf(),
            final(self).policy() == old(self).policy(),
            final(self).name() == old(self).name(),
            final(self).attempts() == old(self).attempts() + 1,
            final(self).active() == (action is Retry),
            old(self).policy().admits(final(self).attempts(), outcome, action),
    {
        let n: u64 = self.attempts + 1;
        let completed: Option<Result<I, E>> = match outcome {
            AttemptOutcome::Success(value) => Some(Ok(value)),
            AttemptOutcome::InnerFailure(err) => Some(Err(err)),
            AttemptOutcome::DeadlineExceeded => None,
            AttemptOutcome::TimerFault(_) => unreached(),
        };
        let wanted = match &completed {
            Some(result) => self.policy.condition.check(result),
            None => true,
        };
        self.attempts = n;
        if wanted && n < u64::MAX {
            match self.strategy.next_delay() {
                Some(delay_ms) => {
                    let notice = if n >= self.policy.log_after {
                        match completed {
                            Some(result) => Some(RetryNotice::Failed { attempt: n, result }),
                            None => Some(RetryNotice::TimedOut { attempt: n }),
                        }
                    } else {
                        None
                    };
                    return Action::Retry(
                        Attempt { number: n + 1, delay_ms, timeout: self.policy.timeout, notice },
                    );
                },
                None => {},
            }
        }
        self.active = false;
        match completed {
            Some(Ok(value)) => Action::Finish(Ok(value)),
            Some(Err(err)) => Action::Finish(Err(TimeoutError::Inner(err))),
            None => Action::Finish(Err(TimeoutError::Elapsed)),
        }
    }
}

/// Makes the attempts of `session` one after the other by calling `try_it`,
/// until the session is over, and returns its result. Each call is handed
/// the attempt to make and returns how it ended under its deadline.
pub fn run_retry<I, E, P, F>(session: RetrySession<I, E, P>, try_it: F) -> (result: Result<
    I,
    TimeoutError<E>,
>) where
    P: Fn(&Result<I, E>) -> bool,
    F: Fn(Attempt<I, E>) -> Result<I, TimeoutError<E>>,

    requires
        session.wf(),
        session.active(),
        session.attempts() == 0,
        forall|attempt: Attempt<I, E>| call_requires(try_it, (attempt,)),
    ensures
        exists|attempts: Seq<Attempt<I, E>>, outcomes: Seq<AttemptOutcome<I, E>>|
            session.policy().ran(try_it, attempts, outcomes, result),
{
    let ghost policy = session.policy();
    let mut state = session;
    let mut attempt = state.first_attempt();
    let ghost mut attempts: Seq<Attempt<I, E>> = seq![attempt];
    let ghost mut outcomes: Seq<AttemptOutcome<I, E>> = Seq::empty();
    loop
        invariant
            state.wf(),
            state.active(),
            state.policy() == policy,
            session.policy() == policy,
            forall|attempt: Attempt<I, E>| call_requires(try_it, (attempt,)),
            attempts.len() == outcomes.len() + 1,
            outcomes.len() == state.attempts(),
            attempts.last() == attempt,
            policy.hands_out(attempts, outcomes),
            policy.retries_all(outcomes),
            forall|k: int|
                #![trigger attempts[k]]
                #![trigger outcomes[k]]
                0 <= k < outcomes.len() ==> !(outcomes[k] is TimerFault) && call_ensures(
                    try_it,
                    (attempts[k],),
                    outcomes[k].terminal(),
                ),
        decreases u64::MAX - state.attempts(),
    {
        let ghost seen = outcomes;
        let outcome = AttemptOutcome::from_timed(try_it(attempt));
        proof {
            outcomes = seen.push(outcome);
            assert(outcomes.drop_last() == seen);
        }
        match state.step(outcome) {
            Action::Retry(next) => {
                attempt = next;
                proof {
                    attempts = attempts.push(next);
                }
            },
            Action::Finish(result) => {
                assert(policy.ran(try_it, attempts, outcomes, result));
                return result;
            },
        }
    }
}

} // verus!
