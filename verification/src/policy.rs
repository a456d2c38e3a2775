//! The rules of a retry session, as mathematics: when an attempt is followed
//! by another, what is handed to the next attempt, and which results a
//! session can end with.

use crate::backoff::delay_before_jitter;
use crate::condition::RetryIf;
use crate::outcome::AttemptOutcome;
use crate::outcome::TimeoutError;
use crate::time::TimeSpan;
use vstd::prelude::*;

verus! {

/// What to report when an attempt is given up and another follows.
#[derive(Debug, PartialEq, Eq)]
pub enum RetryNotice<I, E> {
    /// Attempt number `attempt` exceeded its deadline.
    TimedOut { attempt: u64 },
    /// Attempt number `attempt` completed with `result`.
    Failed { attempt: u64, result: Result<I, E> },
}

/// One attempt that a session asks for.
#[derive(Debug, PartialEq, Eq)]
pub struct Attempt<I, E> {
    /// The number of the attempt, from 1.
    pub number: u64,
    /// How many milliseconds to wait before the attempt starts.
    pub delay_ms: u64,
    /// How long the attempt may take, if it is bounded.
    pub timeout: Option<TimeSpan>,
    /// What to report of the attempt before, if anything.
    pub notice: Option<RetryNotice<I, E>>,
}

/// What a session asks for after an attempt.
#[derive(Debug, PartialEq, Eq)]
pub enum Action<I, E> {
    /// Make this attempt next.
    Retry(Attempt<I, E>),
    /// The session is over, with this result.
    Finish(Result<I, TimeoutError<E>>),
}

/// A finished retry configuration.
pub struct RetryPolicy<P> {
    /// When a completed attempt is followed by another.
    pub condition: RetryIf<P>,
    /// The first attempt number whose retry is reported.
    pub log_after: u64,
    /// The largest number of attempts, if there is one.
    pub limit: Option<usize>,
    /// How long one attempt may take, if it is bounded.
    pub timeout: Option<TimeSpan>,
}

impl<P> RetryPolicy<P> {
    /// The condition can be asked about every result, a limit admits at
    /// least one attempt, and a timeout is a proper length of time.
    pub open spec fn wf<I, E>(&self) -> bool where P: Fn(&Result<I, E>) -> bool {
        &&& self.condition.total::<I, E>()
        &&& self.limit != Some(0usize)
        &&& self.timeout matches Some(span) ==> span.wf()
    }

    /// The most attempts that a session makes: the limit, or without one as
    /// many as the attempt counter can count.
    pub open spec fn max_attempts(&self) -> nat {
        match self.limit {
            Some(limit) => if limit <= u64::MAX {
                limit as nat
            } else {
                u64::MAX as nat
            },
            None => u64::MAX as nat,
        }
    }

    /// `retry` is an answer to whether a session wants another attempt after
    /// `outcome`. After an exceeded deadline the only answer is yes; after a
    /// completed attempt the condition answers; after a timer fault there is
    /// no answer.
    pub open spec fn wants_retry<I, E>(&self, outcome: AttemptOutcome<I, E>, retry: bool) -> bool where
        P: Fn(&Result<I, E>) -> bool,
     {
        match outcome {
            AttemptOutcome::Success(value) => self.condition.may_decide(Ok::<I, E>(value), retry),
            AttemptOutcome::InnerFailure(err) => self.condition.may_decide(Err::<I, E>(err), retry),
            AttemptOutcome::DeadlineExceeded => retry,
            AttemptOutcome::TimerFault(_) => false,
        }
    }

    /// Attempt number `n` can be followed by another when it ends with
    /// `outcome`.
    pub open spec fn retries_after<I, E>(&self, n: nat, outcome: AttemptOutcome<I, E>) -> bool where
        P: Fn(&Result<I, E>) -> bool,
     {
        n < self.max_attempts() && self.wants_retry(outcome, true)
    }

    /// A session can end with `result` when attempt number `n` ends with
    /// `outcome`: no retry is wanted, or one is wanted and no attempt is left.
    pub open spec fn ends_after<I, E>(
        &self,
        n: nat,
        outcome: AttemptOutcome<I, E>,
        result: Result<I, TimeoutError<E>>,
    ) -> bool where P: Fn(&Result<I, E>) -> bool {
        &&& result == outcome.terminal()
        &&& self.wants_retry(outcome, false) || (self.wants_retry(outcome, true) && n
            >= self.max_attempts())
    }

    /// What is reported when attempt number `n` ended with `outcome` and
    /// another follows: nothing before attempt number `log_after`.
    pub open spec fn notice_after<I, E>(&self, n: nat, outcome: AttemptOutcome<I, E>) -> Option<
        RetryNotice<I, E>,
    > {
        if n >= self.log_after {
            match outcome {
                AttemptOutcome::Success(value) => Some(
                    RetryNotice::Failed { attempt: n as u64, result: Ok(value) },
                ),
                AttemptOutcome::InnerFailure(err) => Some(
                    RetryNotice::Failed { attempt: n as u64, result: Err(err) },
                ),
                AttemptOutcome::DeadlineExceeded => Some(
                    RetryNotice::TimedOut { attempt: n as u64 },
                ),
                AttemptOutcome::TimerFault(_) => None,
            }
        } else {
            None
        }
    }

    /// `first` is the attempt that opens a session.
    pub open spec fn opens_with<I, E>(&self, first: Attempt<I, E>) -> bool {
        &&& first.number == 1
        &&& first.delay_ms == 0
        &&& first.timeout == self.timeout
        &&& first.notice is None
    }

    /// `next` is an attempt that can follow attempt number `n`, which ended
    /// with `outcome`. Its delay is the one at position `n - 1` of the
    /// backoff, shortened by jitter.
    pub open spec fn follows_with<I, E>(
        &self,
        n: nat,
        outcome: AttemptOutcome<I, E>,
        next: Attempt<I, E>,
    ) -> bool {
        &&& n >= 1
        &&& next.number == n + 1
        &&& next.delay_ms <= delay_before_jitter((n - 1) as nat)
        &&& next.timeout == self.timeout
        &&& next.notice == self.notice_after(n, outcome)
    }

    /// `action` is what a session can ask for when attempt number `n` ends
    /// with `outcome`.
    pub open spec fn admits<I, E>(
        &self,
        n: nat,
        outcome: AttemptOutcome<I, E>,
        action: Action<I, E>,
    ) -> bool where P: Fn(&Result<I, E>) -> bool {
        match action {
            Action::Retry(next) => self.retries_after(n, outcome) && self.follows_with(
                n,
                outcome,
                next,
            ),
            Action::Finish(result) => self.ends_after(n, outcome, result),
        }
    }

    /// Every attempt of `outcomes` can be followed by another, where the
    /// first is attempt number 1.
    pub open spec fn retries_all<I, E>(&self, outcomes: Seq<AttemptOutcome<I, E>>) -> bool where
        P: Fn(&Result<I, E>) -> bool,
     {
        forall|k: int|
            0 <= k < outcomes.len() ==> self.retries_after((k + 1) as nat, #[trigger] outcomes[k])
    }

    /// `attempts` are attempts that a session hands out, in order, while its
    /// attempts so far end with `outcomes`: the opening one, then one after
    /// each outcome that is followed by another attempt.
    pub open spec fn hands_out<I, E>(
        &self,
        attempts: Seq<Attempt<I, E>>,
        outcomes: Seq<AttemptOutcome<I, E>>,
    ) -> bool {
        &&& 1 <= attempts.len() <= outcomes.len() + 1
        &&& self.opens_with(attempts[0])
        &&& forall|k: int|
            1 <= k < attempts.len() ==> self.follows_with(
                k as nat,
                outcomes[k - 1],
                #[trigger] attempts[k],
            )
    }

    /// A session whose attempts end with `outcomes`, in that order, can end
    /// after the last of them with `result`.
    pub open spec fn yields<I, E>(
        &self,
        outcomes: Seq<AttemptOutcome<I, E>>,
        result: Result<I, TimeoutError<E>>,
    ) -> bool where P: Fn(&Result<I, E>) -> bool {
        &&& outcomes.len() >= 1
        &&& self.retries_all(outcomes.drop_last())
        &&& self.ends_after(outcomes.len(), outcomes.last(), result)
    }

    /// A session that makes its attempts by calling `try_it` can make
    /// `attempts`, get `outcomes` and end with `result`, where `try_it`
    /// reports the outcome of an attempt under its deadline.
    pub open spec fn ran<I, E, F>(
        &self,
        try_it: F,
        attempts: Seq<Attempt<I, E>>,
        outcomes: Seq<AttemptOutcome<I, E>>,
        result: Result<I, TimeoutError<E>>,
    ) -> bool where
        P: Fn(&Result<I, E>) -> bool,
        F: Fn(Attempt<I, E>) -> Result<I, TimeoutError<E>>,
     {
        &&& attempts.len() == outcomes.len()
        &&& self.hands_out(attempts, outcomes)
        &&& forall|k: int|
            #![trigger attempts[k]]
            #![trigger outcomes[k]]
            0 <= k < attempts.len() ==> !(outcomes[k] is TimerFault) && call_ensures(
                try_it,
                (attempts[k],),
                outcomes[k].terminal(),
            )
        &&& self.yields(outcomes, result)
    }

    /// A session that makes its attempts by calling `try_it` can make
    /// `attempts`, get `outcomes` and end with `result`, where every attempt
    /// runs to completion and `try_it` reports its result.
    pub open spec fn ran_to_completion<I, E, F>(
        &self,
        try_it: F,
        attempts: Seq<Attempt<I, E>>,
        outcomes: Seq<AttemptOutcome<I, E>>,
        result: Result<I, E>,
    ) -> bool where P: Fn(&Result<I, E>) -> bool, F: Fn(Attempt<I, E>) -> Result<I, E> {
        &&& attempts.len() == outcomes.len()
        &&& self.hands_out(attempts, outcomes)
        &&& forall|k: int|
            #![trigger attempts[k]]
            #![trigger outcomes[k]]
            0 <= k < attempts.len() ==> outcomes[k].completed() is Some && call_ensures(
                try_it,
                (attempts[k],),
                outcomes[k].completed()->0,
            )
        &&& self.yields(outcomes, AttemptOutcome::of_result(result).terminal())
    }
}

} // verus!
