//! Lengths of time as whole numbers.

use vstd::prelude::*;

verus! {

/// Nanoseconds in a second.
pub const NANOS_PER_SEC: u32 = 1_000_000_000;

/// Nanoseconds in a millisecond.
pub const NANOS_PER_MILLI: u32 = 1_000_000;

/// Milliseconds in a second.
pub const MILLIS_PER_SEC: u64 = 1_000;

/// A length of time: whole seconds and the nanoseconds beyond them.
#[derive(Clone, Copy, Debug, PartialEq, Eq, Structural)]
pub struct TimeSpan {
    secs: u64,
    nanos: u32,
}

impl TimeSpan {
    /// The nanoseconds stay below one second.
    pub closed spec fn wf(&self) -> bool {
        self.nanos < NANOS_PER_SEC
    }

    /// The length in nanoseconds.
    pub closed spec fn total_nanos(&self) -> nat {
        (self.secs as nat) * (NANOS_PER_SEC as nat) + self.nanos as nat
    }

    /// `secs` seconds and `nanos` nanoseconds, the latter below one second.
    pub fn new(secs: u64, nanos: u32) -> (span: TimeSpan)
        requires
            nanos < NANOS_PER_SEC,
        ensures
            span.wf(),
            span.total_nanos() == secs * NANOS_PER_SEC + nanos,
    {
        TimeSpan { secs, nanos }
    }

    /// `secs` whole seconds.
    pub fn from_secs(secs: u64) -> (span: TimeSpan)
        ensures
            span.wf(),
            span.total_nanos() == secs * NANOS_PER_SEC,
    {
        TimeSpan { secs, nanos: 0 }
    }

    /// `millis` whole milliseconds.
    pub fn from_millis(millis: u64) -> (span: TimeSpan)
        ensures
            span.wf(),
            span.total_nanos() == millis * NANOS_PER_MILLI,
    {
        let secs: u64 = millis / MILLIS_PER_SEC;
        let rest: u64 = millis % MILLIS_PER_SEC;
        let nanos: u32 = (rest as u32) * NANOS_PER_MILLI;
        assert(secs * NANOS_PER_SEC + rest * NANOS_PER_MILLI == millis * NANOS_PER_MILLI)
            by (nonlinear_arith)
            requires
                secs == millis / 1000,
                rest == millis % 1000,
                NANOS_PER_SEC == 1_000_000_000,
                NANOS_PER_MILLI == 1_000_000,
        ;
        TimeSpan { secs, nanos }
    }

    /// The whole seconds.
    pub fn as_secs(&self) -> (secs: u64)
        requires
            self.wf(),
        ensures
            secs == self.total_nanos() / (NANOS_PER_SEC as nat),
    {
        assert((self.secs as nat * 1_000_000_000 + self.nanos as nat) / 1_000_000_000
            == self.secs as nat) by (nonlinear_arith)
            requires
                self.nanos < 1_000_000_000,
        ;
        self.secs
    }

    /// The nanoseconds beyond the whole seconds.
    pub fn subsec_nanos(&self) -> (nanos: u32)
        requires
            self.wf(),
        ensures
            nanos == self.total_nanos() % (NANOS_PER_SEC as nat),
            nanos < NANOS_PER_SEC,
    {
        assert((self.secs as nat * 1_000_000_000 + self.nanos as nat) % 1_000_000_000
            == self.nanos as nat) by (nonlinear_arith)
            requires
                self.nanos < 1_000_000_000,
        ;
        self.nanos
    }
}

} // verus!
