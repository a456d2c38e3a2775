//! What holds of every retry session.
//!
//! A session is described by the outcomes of its attempts, in order. The
//! laws take a script, which says how each attempt would end if it were
//! made, and state after how many attempts a session over that script ends
//! and with which result.

use crate::condition::RetryIf;
use crate::outcome::AttemptOutcome;
use crate::outcome::TimeoutError;
use crate::backoff::lemma_delay_grows_to_cap;
use crate::backoff::MAX_DELAY_MS;
use crate::policy::Attempt;
use crate::policy::RetryPolicy;
use vstd::prelude::*;

verus! {

/// A session ends where the first attempt ends after which it cannot go on.
/// If every attempt before the `n`-th must be retried (no answer of the
/// condition is to stop, and attempts are left), and the `n`-th cannot be
/// retried (no answer of the condition is to retry, or no attempt is left),
/// then a session over `script` can only end after exactly `n` attempts, and
/// only with the result of the `n`-th. This holds whatever the condition is:
/// a predicate that asks for a retry after a success keeps the session going
/// past that success.
pub proof fn lemma_session_ends_where_retrying_stops<I, E, P: Fn(&Result<I, E>) -> bool>(
    policy: RetryPolicy<P>,
    script: Seq<AttemptOutcome<I, E>>,
    n: int,
)
    requires
        1 <= n <= script.len(),
        n <= policy.max_attempts(),
        forall|k: int| 0 <= k < n - 1 ==> !policy.wants_retry(#[trigger] script[k], false),
        n == policy.max_attempts() || !policy.wants_retry(script[n - 1], true),
    ensures
        forall|m: int, result: Result<I, TimeoutError<E>>|
            1 <= m <= script.len() && #[trigger] policy.yields(script.take(m), result) ==> m == n
                && result == script[n - 1].terminal(),
{
    assert forall|m: int, result: Result<I, TimeoutError<E>>|
        1 <= m <= script.len() && #[trigger] policy.yields(
            script.take(m),
            result,
        ) implies m == n && result == script[n - 1].terminal() by {
        let made = script.take(m);
        assert(made.last() == script[m - 1]);
        if m < n {
            assert(!policy.wants_retry(script[m - 1], false));
        } else if m > n {
            assert(made.drop_last()[n - 1] == script[n - 1]);
            assert(policy.retries_after(n as nat, made.drop_last()[n - 1]));
        }
    }
}

/// A session can end after `n` attempts with the result of the `n`-th where
/// the condition can ask for a retry after each attempt before it and
/// attempts are left, and the `n`-th is one to stop at.
pub proof fn lemma_session_can_end<I, E, P: Fn(&Result<I, E>) -> bool>(
    policy: RetryPolicy<P>,
    script: Seq<AttemptOutcome<I, E>>,
    n: int,
)
    requires
        1 <= n <= script.len(),
        n <= policy.max_attempts(),
        forall|k: int| 0 <= k < n - 1 ==> policy.wants_retry(#[trigger] script[k], true),
        policy.wants_retry(script[n - 1], false) || (n == policy.max_attempts()
            && policy.wants_retry(script[n - 1], true)),
    ensures
        policy.yields(script.take(n), script[n - 1].terminal()),
{
    let made = script.take(n);
    assert(made.last() == script[n - 1]);
    assert forall|k: int| 0 <= k < made.drop_last().len() implies policy.retries_after(
        (k + 1) as nat,
        #[trigger] made.drop_last()[k],
    ) by {
        assert(made.drop_last()[k] == script[k]);
    }
}

/// Eventual success. Without a limit and with the default condition, where
/// the attempts before the `n`-th fail and the `n`-th succeeds with `value`,
/// the session ends after exactly `n` attempts with `Ok(value)`.
pub proof fn lemma_eventual_success<I, E, P: Fn(&Result<I, E>) -> bool>(
    policy: RetryPolicy<P>,
    script: Seq<AttemptOutcome<I, E>>,
    n: int,
    value: I,
)
    requires
        policy.condition is Error,
        policy.limit is None,
        1 <= n <= script.len(),
        n <= u64::MAX,
        forall|k: int| 0 <= k < n - 1 ==> #[trigger] script[k] is InnerFailure,
        script[n - 1] == AttemptOutcome::<I, E>::Success(value),
    ensures
        policy.yields(script.take(n), Ok(value)),
        forall|m: int, result: Result<I, TimeoutError<E>>|
            1 <= m <= script.len() && #[trigger] policy.yields(script.take(m), result) ==> m == n
                && result == Ok::<I, TimeoutError<E>>(value),
{
    lemma_session_ends_where_retrying_stops(policy, script, n);
    lemma_session_can_end(policy, script, n);
}

/// Limit enforcement. With a limit of `limit` attempts and the default
/// condition, where every attempt fails, the session ends after exactly
/// `limit` attempts, with the error of the last of them.
pub proof fn lemma_limit_enforced<I, E, P: Fn(&Result<I, E>) -> bool>(
    policy: RetryPolicy<P>,
    script: Seq<AttemptOutcome<I, E>>,
    limit: usize,
    err: E,
)
    requires
        policy.condition is Error,
        policy.limit == Some(limit),
        1 <= limit <= script.len(),
        forall|k: int| 0 <= k < limit ==> #[trigger] script[k] is InnerFailure,
        script[limit - 1] == AttemptOutcome::<I, E>::InnerFailure(err),
    ensures
        policy.yields(script.take(limit as int), Err(TimeoutError::Inner(err))),
        forall|m: int, result: Result<I, TimeoutError<E>>|
            1 <= m <= script.len() && #[trigger] policy.yields(script.take(m), result) ==> m
                == limit && result == Err::<I, TimeoutError<E>>(TimeoutError::Inner(err)),
{
    lemma_session_ends_where_retrying_stops(policy, script, limit as int);
    lemma_session_can_end(policy, script, limit as int);
}

/// Limit sufficiency. With the default condition and a limit of at least
/// `n` attempts, where the attempts before the `n`-th fail and the `n`-th
/// succeeds with `value`, the session ends after exactly `n` attempts, not
/// after as many as the limit allows, with `Ok(value)`.
pub proof fn lemma_limit_sufficient<I, E, P: Fn(&Result<I, E>) -> bool>(
    policy: RetryPolicy<P>,
    script: Seq<AttemptOutcome<I, E>>,
    limit: usize,
    n: int,
    value: I,
)
    requires
        policy.condition is Error,
        policy.limit == Some(limit),
        1 <= n <= limit,
        n <= script.len(),
        forall|k: int| 0 <= k < n - 1 ==> #[trigger] script[k] is InnerFailure,
        script[n - 1] == AttemptOutcome::<I, E>::Success(value),
    ensures
        policy.yields(script.take(n), Ok(value)),
        forall|m: int, result: Result<I, TimeoutError<E>>|
            1 <= m <= script.len() && #[trigger] policy.yields(script.take(m), result) ==> m == n
                && result == Ok::<I, TimeoutError<E>>(value),
{
    lemma_session_ends_where_retrying_stops(policy, script, n);
    lemma_session_can_end(policy, script, n);
}

/// A custom predicate overrides the default. Where the attempts up to the
/// `n`-th run to completion, the predicate answers only "retry" about the
/// results of those before the `n`-th, be they successes, and only "stop"
/// about that of the `n`-th, and the limit allows `n` attempts, the session
/// ends after exactly `n` attempts with the result of the `n`-th.
pub proof fn lemma_predicate_overrides_default<I, E, P: Fn(&Result<I, E>) -> bool>(
    policy: RetryPolicy<P>,
    predicate: P,
    script: Seq<AttemptOutcome<I, E>>,
    n: int,
)
    requires
        policy.condition == RetryIf::Predicate(predicate),
        1 <= n <= script.len(),
        n <= policy.max_attempts(),
        forall|k: int| 0 <= k < n ==> (#[trigger] script[k]).completed() is Some,
        forall|k: int|
            0 <= k < n - 1 ==> !call_ensures(
                predicate,
                (&(#[trigger] script[k]).completed()->0,),
                false,
            ),
        !call_ensures(predicate, (&script[n - 1].completed()->0,), true),
    ensures
        forall|m: int, result: Result<I, TimeoutError<E>>|
            1 <= m <= script.len() && #[trigger] policy.yields(script.take(m), result) ==> m == n
                && result == script[n - 1].terminal(),
{
    assert forall|k: int| 0 <= k < n - 1 implies !policy.wants_retry(
        #[trigger] script[k],
        false,
    ) by {
        assert(script[k].completed() is Some);
    }
    assert(script[n - 1].completed() is Some);
    lemma_session_ends_where_retrying_stops(policy, script, n);
}

/// The attempts of a session are numbered from 1 in the order in which they
/// are handed out.
pub proof fn lemma_attempts_are_numbered<I, E, P>(
    policy: RetryPolicy<P>,
    attempts: Seq<Attempt<I, E>>,
    outcomes: Seq<AttemptOutcome<I, E>>,
)
    requires
        policy.hands_out(attempts, outcomes),
    ensures
        forall|k: int| 0 <= k < attempts.len() ==> (#[trigger] attempts[k]).number == k + 1,
        forall|k: int| 0 <= k < attempts.len() ==> (#[trigger] attempts[k]).timeout == policy.timeout,
        forall|k: int| 0 <= k < attempts.len() ==> (#[trigger] attempts[k]).delay_ms <= MAX_DELAY_MS,
{
    assert forall|k: int| 0 <= k < attempts.len() implies (#[trigger] attempts[k]).number == k + 1
        && attempts[k].timeout == policy.timeout && attempts[k].delay_ms <= MAX_DELAY_MS by {
        if k > 0 {
            assert(policy.follows_with(k as nat, outcomes[k - 1], attempts[k]));
            lemma_delay_grows_to_cap((k - 1) as nat);
        }
    }
}

/// A run ends where retrying stops. Let the function that makes the attempts
/// report `results(k)` whenever it makes attempt number `k`. If the
/// condition can only answer "retry" about the results of the attempts
/// before the `n`-th, and the `n`-th is the last that the limit allows or one
/// about whose result the condition can only answer "stop", then every run
/// without timeout calls the function exactly `n` times, for the attempts 1
/// to `n`, and returns `results(n)`.
pub proof fn lemma_run_ends_where_retrying_stops<I, E, P, F>(
    policy: RetryPolicy<P>,
    try_it: F,
    results: spec_fn(u64) -> Result<I, E>,
    n: u64,
    attempts: Seq<Attempt<I, E>>,
    outcomes: Seq<AttemptOutcome<I, E>>,
    result: Result<I, E>,
) where P: Fn(&Result<I, E>) -> bool, F: Fn(Attempt<I, E>) -> Result<I, E>
    requires
        forall|attempt: Attempt<I, E>, reported: Result<I, E>| #[trigger]
            call_ensures(try_it, (attempt,), reported) ==> reported == results(attempt.number),
        1 <= n <= policy.max_attempts(),
        forall|k: u64| 1 <= k < n ==> !policy.condition.may_decide(#[trigger] results(k), false),
        n == policy.max_attempts() || !policy.condition.may_decide(results(n), true),
        policy.ran_to_completion(try_it, attempts, outcomes, result),
    ensures
        attempts.len() == n,
        result == results(n),
{
    lemma_attempts_are_numbered(policy, attempts, outcomes);
    let m = outcomes.len() as int;
    let longest = if m < n { n as int } else { m };
    let script = Seq::new(
        longest as nat,
        |k: int|
            if k < m {
                outcomes[k]
            } else {
                AttemptOutcome::of_result(results((k + 1) as u64))
            },
    );
    assert forall|k: int| 0 <= k < longest && k < u64::MAX implies #[trigger] script[k]
        == AttemptOutcome::of_result(results((k + 1) as u64)) by {
        if k < m {
            assert(call_ensures(try_it, (attempts[k],), outcomes[k].completed()->0));
        }
    }
    assert(script.take(m) == outcomes);
    assert forall|k: int| 0 <= k < n - 1 implies !policy.wants_retry(
        #[trigger] script[k],
        false,
    ) by {
        assert(!policy.condition.may_decide(results((k + 1) as u64), false));
    }
    lemma_session_ends_where_retrying_stops(policy, script, n as int);
    assert(policy.yields(script.take(m), AttemptOutcome::of_result(result).terminal()));
}

/// A run with timeouts ends where retrying stops. Let the function that
/// makes the attempts report `results(k)` whenever it makes attempt number
/// `k`, be it a result of the operation or an exceeded deadline. If a retry
/// is the only answer after each attempt before the `n`-th, as it is after
/// an exceeded deadline whatever the condition, and the `n`-th is the last
/// that the limit allows or one after which to stop is the only answer, then
/// every run calls the function exactly `n` times, for the attempts 1 to
/// `n`, and returns `results(n)`.
pub proof fn lemma_timed_run_ends_where_retrying_stops<I, E, P, F>(
    policy: RetryPolicy<P>,
    try_it: F,
    results: spec_fn(u64) -> Result<I, TimeoutError<E>>,
    n: u64,
    attempts: Seq<Attempt<I, E>>,
    outcomes: Seq<AttemptOutcome<I, E>>,
    result: Result<I, TimeoutError<E>>,
) where P: Fn(&Result<I, E>) -> bool, F: Fn(Attempt<I, E>) -> Result<I, TimeoutError<E>>
    requires
        forall|attempt: Attempt<I, E>, reported: Result<I, TimeoutError<E>>| #[trigger]
            call_ensures(try_it, (attempt,), reported) ==> reported == results(attempt.number),
        1 <= n <= policy.max_attempts(),
        forall|k: u64|
            1 <= k < n ==> !policy.wants_retry(
                AttemptOutcome::of_timed(#[trigger] results(k)),
                false,
            ),
        n == policy.max_attempts() || !policy.wants_retry(
            AttemptOutcome::of_timed(results(n)),
            true,
        ),
        policy.ran(try_it, attempts, outcomes, result),
    ensures
        attempts.len() == n,
        result == results(n),
{
    lemma_attempts_are_numbered(policy, attempts, outcomes);
    let m = outcomes.len() as int;
    let longest = if m < n { n as int } else { m };
    let script = Seq::new(
        longest as nat,
        |k: int|
            if k < m {
                outcomes[k]
            } else {
                AttemptOutcome::of_timed(results((k + 1) as u64))
            },
    );
    assert forall|k: int| 0 <= k < longest && k < u64::MAX implies #[trigger] script[k]
        == AttemptOutcome::of_timed(results((k + 1) as u64)) by {
        if k < m {
            assert(call_ensures(try_it, (attempts[k],), outcomes[k].terminal()));
        }
    }
    assert(script.take(m) == outcomes);
    assert forall|k: int| 0 <= k < n - 1 implies !policy.wants_retry(
        #[trigger] script[k],
        false,
    ) by {
        assert(!policy.wants_retry(AttemptOutcome::of_timed(results((k + 1) as u64)), false));
    }
    lemma_session_ends_where_retrying_stops(policy, script, n as int);
}

/// No deadline, no exceeded deadline. A session of attempts that all run to
/// completion never ends with `Elapsed`: its result is the result of its
/// last attempt.
pub proof fn lemma_completed_attempts_never_elapse<I, E, P: Fn(&Result<I, E>) -> bool>(
    policy: RetryPolicy<P>,
    outcomes: Seq<AttemptOutcome<I, E>>,
    result: Result<I, TimeoutError<E>>,
)
    requires
        forall|k: int| 0 <= k < outcomes.len() ==> (#[trigger] outcomes[k]).completed() is Some,
        policy.yields(outcomes, result),
    ensures
        !(result matches Err(TimeoutError::Elapsed)),
        outcomes.last().completed() == Some(
            match result {
                Ok(value) => Ok::<I, E>(value),
                Err(TimeoutError::Inner(err)) => Err(err),
                Err(TimeoutError::Elapsed) => arbitrary(),
            },
        ),
{
    assert(outcomes.last() == outcomes[outcomes.len() - 1]);
}

/// An exceeded deadline is retried whatever the condition says: the only
/// answer after it is to retry, so that a session goes on after it as long
/// as attempts are left.
pub proof fn lemma_deadline_always_retried<I, E, P: Fn(&Result<I, E>) -> bool>(
    policy: RetryPolicy<P>,
    n: nat,
)
    ensures
        policy.wants_retry(AttemptOutcome::<I, E>::DeadlineExceeded, true),
        !policy.wants_retry(AttemptOutcome::<I, E>::DeadlineExceeded, false),
        n < policy.max_attempts() ==> policy.retries_after(
            n,
            AttemptOutcome::<I, E>::DeadlineExceeded,
        ),
{
}

} // verus!
