//! Polling inside a section of blocking work.

use vstd::pervasive::unreached;
use vstd::prelude::*;

verus! {

/// The state of a value that is computed step by step.
#[derive(Debug, PartialEq, Eq)]
pub enum Async<T> {
    /// The value is there.
    Ready(T),
    /// The value is not there yet.
    NotReady,
}

/// A section of blocking work was asked for where none can run.
#[derive(Clone, Copy, Debug, PartialEq, Eq, Structural)]
pub struct BlockingError;

/// What one poll of an operation reports.
pub type Poll<T, E> = Result<Async<T>, E>;

/// What a poll of an operation reports that is made inside a section of
/// blocking work, from what the section reports: the poll's own report once
/// the section has run it, and `NotReady` while the section has no room. The
/// section must have been entered where blocking work can run.
pub fn blocking<T, E>(section: Poll<Poll<T, E>, BlockingError>) -> (polled: Poll<T, E>)
    requires
        section is Ok,
    ensures
        polled == match section {
            Ok(Async::Ready(inner)) => inner,
            _ => Ok::<Async<T>, E>(Async::NotReady),
        },
{
    match section {
        Ok(Async::NotReady) => Ok(Async::NotReady),
        Ok(Async::Ready(Ok(Async::NotReady))) => Ok(Async::NotReady),
        Ok(Async::Ready(Ok(Async::Ready(value)))) => Ok(Async::Ready(value)),
        Ok(Async::Ready(Err(err))) => Err(err),
        Err(_) => unreached(),
    }
}

} // verus!
