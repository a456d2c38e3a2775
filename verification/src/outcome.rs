//! How one attempt ended, and how a session ends.

use vstd::prelude::*;

verus! {

/// What went wrong in the timer that bounds an attempt.
#[derive(Clone, Copy, Debug, PartialEq, Eq, Structural)]
pub enum TimerFault {
    /// The timer is no longer running.
    Shutdown,
    /// The timer cannot take another deadline.
    AtCapacity,
}

/// The error of a session whose attempts have a deadline.
#[derive(Debug, PartialEq, Eq)]
pub enum TimeoutError<E> {
    /// The last attempt ran to completion and failed with this error.
    Inner(E),
    /// The last attempt exceeded its deadline.
    Elapsed,
}

impl<E> TimeoutError<E> {
    /// The error of an attempt that ran to completion.
    pub fn inner(err: E) -> (error: Self)
        ensures
            error == TimeoutError::Inner(err),
    {
        TimeoutError::Inner(err)
    }

    /// Whether the attempt ran to completion.
    pub fn is_inner(&self) -> (inner: bool)
        ensures
            inner == (self is Inner),
    {
        match self {
            TimeoutError::Inner(_) => true,
            TimeoutError::Elapsed => false,
        }
    }

    /// Whether the attempt exceeded its deadline.
    pub fn is_elapsed(&self) -> (elapsed: bool)
        ensures
            elapsed == (self is Elapsed),
    {
        match self {
            TimeoutError::Inner(_) => false,
            TimeoutError::Elapsed => true,
        }
    }

    /// The error of the attempt itself, if it ran to completion.
    pub fn into_inner(self) -> (err: Option<E>)
        ensures
            err == match self {
                TimeoutError::Inner(e) => Some(e),
                TimeoutError::Elapsed => None,
            },
    {
        match self {
            TimeoutError::Inner(e) => Some(e),
            TimeoutError::Elapsed => None,
        }
    }
}

/// The result of one attempt under its deadline.
#[derive(Debug, PartialEq, Eq)]
pub enum AttemptOutcome<I, E> {
    /// The operation completed with this value.
    Success(I),
    /// The operation completed with this error.
    InnerFailure(E),
    /// The deadline passed before the operation completed.
    DeadlineExceeded,
    /// The timer itself failed. No session goes on after this.
    TimerFault(TimerFault),
}

impl<I, E> AttemptOutcome<I, E> {
    /// The result of the operation, where it ran to completion.
    pub open spec fn completed(self) -> Option<Result<I, E>> {
        match self {
            AttemptOutcome::Success(value) => Some(Ok(value)),
            AttemptOutcome::InnerFailure(err) => Some(Err(err)),
            AttemptOutcome::DeadlineExceeded => None,
            AttemptOutcome::TimerFault(_) => None,
        }
    }

    /// What a session returns when this outcome is its last. A timer fault is
    /// the last outcome of no session; for it this is `Err(Elapsed)`.
    pub open spec fn terminal(self) -> Result<I, TimeoutError<E>> {
        match self {
            AttemptOutcome::Success(value) => Ok(value),
            AttemptOutcome::InnerFailure(err) => Err(TimeoutError::Inner(err)),
            AttemptOutcome::DeadlineExceeded => Err(TimeoutError::Elapsed),
            AttemptOutcome::TimerFault(_) => Err(TimeoutError::Elapsed),
        }
    }

    /// The outcome of an attempt that ran to completion with `result`.
    pub open spec fn of_result(result: Result<I, E>) -> Self {
        match result {
            Ok(value) => AttemptOutcome::Success(value),
            Err(err) => AttemptOutcome::InnerFailure(err),
        }
    }

    /// The outcome of an attempt under a deadline that reported `result`.
    pub open spec fn of_timed(result: Result<I, TimeoutError<E>>) -> Self {
        match result {
            Ok(value) => AttemptOutcome::Success(value),
            Err(TimeoutError::Inner(err)) => AttemptOutcome::InnerFailure(err),
            Err(TimeoutError::Elapsed) => AttemptOutcome::DeadlineExceeded,
        }
    }

    /// The outcome of an attempt that ran to completion with `result`.
    pub fn from_result(result: Result<I, E>) -> (outcome: Self)
        ensures
            outcome == Self::of_result(result),
            outcome.completed() == Some(result),
    {
        match result {
            Ok(value) => AttemptOutcome::Success(value),
            Err(err) => AttemptOutcome::InnerFailure(err),
        }
    }

    /// The outcome of an attempt under a deadline that reported `result`.
    pub fn from_timed(result: Result<I, TimeoutError<E>>) -> (outcome: Self)
        ensures
            outcome == Self::of_timed(result),
            outcome.terminal() == result,
            !(outcome is TimerFault),
    {
        match result {
            Ok(value) => AttemptOutcome::Success(value),
            Err(TimeoutError::Inner(err)) => AttemptOutcome::InnerFailure(err),
            Err(TimeoutError::Elapsed) => AttemptOutcome::DeadlineExceeded,
        }
    }

    /// Whether the deadline passed before the operation completed.
    pub fn is_elapsed(&self) -> (elapsed: bool)
        ensures
            elapsed == (self is DeadlineExceeded),
    {
        match self {
            AttemptOutcome::DeadlineExceeded => true,
            _ => false,
        }
    }

    /// Whether the timer failed.
    pub fn is_timer(&self) -> (timer: bool)
        ensures
            timer == (self is TimerFault),
    {
        match self {
            AttemptOutcome::TimerFault(_) => true,
            _ => false,
        }
    }
}

/// The result of a session without deadlines, from the form that has a place
/// for an exceeded deadline. `result` must not be that place.
pub fn strip_timeout<I, E>(result: Result<I, TimeoutError<E>>) -> (inner: Result<I, E>)
    requires
        !(result matches Err(TimeoutError::Elapsed)),
    ensures
        result == match inner {
            Ok(value) => Ok::<I, TimeoutError<E>>(value),
            Err(err) => Err(TimeoutError::Inner(err)),
        },
        AttemptOutcome::of_result(inner).terminal() == result,
{
    match result {
        Ok(value) => Ok(value),
        Err(TimeoutError::Inner(err)) => Err(err),
        Err(TimeoutError::Elapsed) => unreached(),
    }
}

} // verus!
