//! The delays between attempts: exponential growth from a small base, capped,
//! jittered, and optionally cut off after a number of elements.
//!
//! The growth and the jitter come from `tokio_retry::strategy`. What this
//! module believes of that crate is stated on the four wrappers below; the
//! rest is proved from it.

use std::time::Duration;
use tokio_retry::strategy::jitter;
use tokio_retry::strategy::ExponentialBackoff;
use vstd::arithmetic::power::lemma_pow_positive;
use vstd::arithmetic::power::pow;
use vstd::prelude::*;

verus! {

/// The first delay before jitter, in milliseconds, and the factor by which
/// each later one grows.
pub const BASE_DELAY_MS: u64 = 2;

/// No delay is longer than this many milliseconds.
pub const MAX_DELAY_MS: u64 = 30_000;

/// The largest number of milliseconds from which `jitter` is known not to
/// round upwards: every whole number up to it is a `f64`.
pub const MAX_EXACT_MS: u64 = 0x1f_ffff_ffff_ffff;

#[verifier::external_type_specification]
#[verifier::external_body]
pub struct ExExponentialBackoff(ExponentialBackoff);

/// The delay in milliseconds that a backoff yields at position `k` from now:
/// position 0 is the one that comes next.
pub uninterp spec fn backoff_delay(backoff: ExponentialBackoff, k: nat) -> nat;

/// The maximum delay, in milliseconds, that a backoff was given, if any.
pub uninterp spec fn backoff_cap(backoff: ExponentialBackoff) -> Option<nat>;

/// `base` to the power `k + 1`, or `u64::MAX` where that is larger: the delay
/// at position `k` of a backoff with that base and no maximum.
pub open spec fn uncapped_delay(base: nat, k: nat) -> nat {
    let power = pow(base as int, k + 1);
    if power > u64::MAX {
        u64::MAX as nat
    } else {
        power as nat
    }
}

/// The smaller of two delays.
pub open spec fn shorter(a: nat, b: nat) -> nat {
    if a <= b {
        a
    } else {
        b
    }
}

/// The delay at position `k` before jitter: `min(base * base^k, cap)`
/// milliseconds, with the base and the cap of this library.
pub open spec fn delay_before_jitter(k: nat) -> nat {
    shorter(uncapped_delay(BASE_DELAY_MS as nat, k), MAX_DELAY_MS as nat)
}

/// No delay is longer than the maximum, and each is twice the one before
/// until the maximum is reached: `delay(k) = min(2 * 2^k, 30000)`.
pub proof fn lemma_delay_grows_to_cap(k: nat)
    ensures
        delay_before_jitter(k) <= MAX_DELAY_MS,
        delay_before_jitter(k) == shorter(
            (BASE_DELAY_MS * pow(BASE_DELAY_MS as int, k)) as nat,
            MAX_DELAY_MS as nat,
        ),
        delay_before_jitter(k) <= delay_before_jitter(k + 1),
{
    lemma_pow_positive(2, k);
    lemma_pow_positive(2, k + 1);
    assert(pow(2, k + 1) == 2 * pow(2, k)) by {
        reveal(pow);
    }
    assert(pow(2, k + 2) == 2 * pow(2, k + 1)) by {
        reveal(pow);
    }
}

/// `ExponentialBackoff::from_millis`. The new backoff starts at `base`
/// milliseconds and multiplies by `base` after each element, staying at
/// `u64::MAX` once a product no longer fits; its factor is 1 and it has no
/// maximum.
#[verifier::external_body]
fn backoff_from_millis(base: u64) -> (backoff: ExponentialBackoff)
    ensures
        backoff_cap(backoff) is None,
        forall|k: nat| #[trigger] backoff_delay(backoff, k) == uncapped_delay(base as nat, k),
{
    ExponentialBackoff::from_millis(base)
}

/// `ExponentialBackoff::max_delay`, on a backoff that has no maximum yet.
/// From then on an element that would be longer than `max_ms` milliseconds
/// is `max_ms` milliseconds instead.
#[verifier::external_body]
fn backoff_max_delay(backoff: ExponentialBackoff, max_ms: u64) -> (capped: ExponentialBackoff)
    requires
        backoff_cap(backoff) is None,
    ensures
        backoff_cap(capped) == Some(max_ms as nat),
        forall|k: nat| #[trigger]
            backoff_delay(capped, k) == shorter(backoff_delay(backoff, k), max_ms as nat),
{
    backoff.max_delay(Duration::from_millis(max_ms))
}

/// `Iterator::next` of `ExponentialBackoff`. It never ends: it yields the
/// delay at position 0, a whole number of milliseconds, and what is left is
/// the rest in the same order.
#[verifier::external_body]
fn backoff_next(backoff: &mut ExponentialBackoff) -> (delay_ms: Option<u64>)
    ensures
        delay_ms == Some(backoff_delay(*old(backoff), 0) as u64),
        backoff_delay(*old(backoff), 0) <= u64::MAX,
        backoff_cap(*final(backoff)) == backoff_cap(*old(backoff)),
        forall|k: nat| #[trigger]
            backoff_delay(*final(backoff), k) == backoff_delay(*old(backoff), k + 1),
{
    match backoff.next() {
        Some(delay) => Some(delay.as_millis() as u64),
        None => None,
    }
}

/// `tokio_retry::strategy::jitter`, on a whole number of milliseconds. The
/// result is that delay times a random factor between 0 and 1, rounded down
/// to whole milliseconds: never longer than the delay. Which it is, nothing
/// says.
#[verifier::external_body]
fn jitter_ms(delay_ms: u64) -> (jittered_ms: u64)
    requires
        delay_ms <= MAX_EXACT_MS,
    ensures
        jittered_ms <= delay_ms,
{
    jitter(Duration::from_millis(delay_ms)).as_millis() as u64
}

/// The stream of waits of one retry session.
pub struct RetryStrategy {
    backoff: ExponentialBackoff,
    remaining: Option<usize>,
    issued: Ghost<nat>,
}

impl RetryStrategy {
    /// What is left of the backoff is the tail of the library's delay
    /// sequence from the number of delays handed out so far.
    pub closed spec fn wf(&self) -> bool {
        forall|k: nat| #[trigger]
            backoff_delay(self.backoff, k) == delay_before_jitter(self.issued@ + k)
    }

    /// How many delays have been handed out.
    pub closed spec fn issued(&self) -> nat {
        self.issued@
    }

    /// How many more delays there are; `None` where the stream never ends.
    pub closed spec fn remaining(&self) -> Option<nat> {
        match self.remaining {
            Some(n) => Some(n as nat),
            None => None,
        }
    }

    /// How many delays the stream has from its first to its last; `None`
    /// where it never ends.
    pub open spec fn length(&self) -> Option<nat> {
        match self.remaining() {
            Some(n) => Some(self.issued() + n),
            None => None,
        }
    }

    /// Whether another delay can be had.
    pub fn has_next(&self) -> (more: bool)
        ensures
            more == (self.remaining() != Some(0nat)),
    {
        match self.remaining {
            Some(n) => n > 0,
            None => true,
        }
    }

    /// The next delay in milliseconds, or `None` where the stream has ended:
    /// a stream of a given length yields exactly that many delays. A delay
    /// is the one at its position before jitter, shortened at random, and so
    /// never longer than `MAX_DELAY_MS`.
    pub fn next_delay(&mut self) -> (delay_ms: Option<u64>)
        requires
            old(self).wf(),
        ensures
            final(self).wf(),
            final(self).length() == old(self).length(),
            delay_ms is Some <==> match old(self).length() {
                Some(length) => old(self).issued() < length,
                None => true,
            },
            delay_ms is None <==> old(self).remaining() == Some(0nat),
            delay_ms is None ==> {
                &&& final(self).issued() == old(self).issued()
                &&& final(self).remaining() == old(self).remaining()
            },
            delay_ms is Some ==> {
                &&& delay_ms->0 <= delay_before_jitter(old(self).issued())
                &&& delay_ms->0 <= MAX_DELAY_MS
                &&& final(self).issued() == old(self).issued() + 1
                &&& final(self).remaining() == match old(self).remaining() {
                    Some(n) => Some((n - 1) as nat),
                    None => None,
                }
            },
    {
        match self.remaining {
            Some(n) => {
                if n == 0 {
                    return None;
                }
                self.remaining = Some(n - 1);
            },
            None => {},
        }
        let ghost position = self.issued@;
        let ghost before = self.backoff;
        assert(backoff_delay(before, 0) == delay_before_jitter(position + 0));
        let raw = backoff_next(&mut self.backoff);
        proof {
            self.issued = Ghost(position + 1);
            assert forall|k: nat| #[trigger]
                backoff_delay(self.backoff, k) == delay_before_jitter(self.issued@ + k) by {
                assert(backoff_delay(before, k + 1) == delay_before_jitter(position + (k + 1)));
                assert(position + (k + 1) == self.issued@ + k);
            }
        }
        match raw {
            Some(raw_ms) => Some(jitter_ms(raw_ms)),
            None => None,
        }
    }
}

/// The waits of a session with the given attempt limit: one fewer than the
/// limit, since a wait stands between two attempts; without a limit, as many
/// as are asked for.
pub fn retry_strategy(limit_opt: Option<usize>) -> (strategy: RetryStrategy)
    requires
        limit_opt != Some(0usize),
    ensures
        strategy.wf(),
        strategy.issued() == 0,
        strategy.length() == match limit_opt {
            Some(limit) => Some((limit - 1) as nat),
            None => None,
        },
        strategy.remaining() == match limit_opt {
            Some(limit) => Some((limit - 1) as nat),
            None => None,
        },
{
    let growing = backoff_from_millis(BASE_DELAY_MS);
    let backoff = backoff_max_delay(growing, MAX_DELAY_MS);
    assert forall|k: nat| #[trigger] backoff_delay(backoff, k) == delay_before_jitter(0 + k) by {
        assert(backoff_delay(growing, k) == uncapped_delay(BASE_DELAY_MS as nat, k));
    }
    let remaining = match limit_opt {
        Some(limit) => Some(limit - 1),
        None => None,
    };
    RetryStrategy { backoff, remaining, issued: Ghost(0) }
}

} // verus!
