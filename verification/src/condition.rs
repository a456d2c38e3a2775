//! When a completed attempt is followed by another.

use vstd::prelude::*;

verus! {

/// The retry condition of a session. It is asked once for each attempt that
/// ran to completion; an attempt that exceeded its deadline is retried
/// without asking.
pub enum RetryIf<P> {
    /// Retry exactly when the attempt failed.
    Error,
    /// Retry exactly when the predicate says so of the attempt's result.
    Predicate(P),
}

impl<P> RetryIf<P> {
    /// The condition can be asked about every result.
    pub open spec fn total<I, E>(&self) -> bool where P: Fn(&Result<I, E>) -> bool {
        match self {
            RetryIf::Error => true,
            RetryIf::Predicate(predicate) => forall|result: &Result<I, E>|
                call_requires(*predicate, (result,)),
        }
    }

    /// `retry` is an answer that the condition can give about `result`.
    /// The default condition has one answer for each result; a predicate has
    /// those that its own contract allows.
    pub open spec fn may_decide<I, E>(&self, result: Result<I, E>, retry: bool) -> bool where
        P: Fn(&Result<I, E>) -> bool,
     {
        match self {
            RetryIf::Error => retry == result is Err,
            RetryIf::Predicate(predicate) => call_ensures(*predicate, (&result,), retry),
        }
    }

    /// Whether another attempt should follow one that ended with `result`.
    pub fn check<I, E>(&self, result: &Result<I, E>) -> (retry: bool) where
        P: Fn(&Result<I, E>) -> bool,

        requires
            self.total::<I, E>(),
        ensures
            self.may_decide(*result, retry),
    {
        match self {
            RetryIf::Error => result.is_err(),
            RetryIf::Predicate(predicate) => predicate(result),
        }
    }
}

} // verus!
