//! Waiting times between attempts: a weak network wants quick reconnects, so
//! the wait doubles from one second and stops growing at fifteen.

use vstd::arithmetic::power2::{lemma2_to64, lemma_pow2_unfold, pow2};
use vstd::prelude::*;

verus! {

/// The wait before the first repeated attempt.
pub const INITIAL_BACKOFF_MS: u64 = 1_000;

/// The longest wait.
pub const MAX_BACKOFF_MS: u64 = 15_000;

/// How long one nap lasts while waiting; cancelling is noticed between naps.
pub const NAP_MS: u64 = 200;

/// The wait that follows a wait of `current` milliseconds.
pub open spec fn doubled_backoff(current: int) -> int {
    if 2 * current < MAX_BACKOFF_MS {
        2 * current
    } else {
        MAX_BACKOFF_MS as int
    }
}

/// The wait after `n` attempts in a row have failed.
pub open spec fn backoff_after(n: nat) -> int
    decreases n,
{
    if n == 0 {
        INITIAL_BACKOFF_MS as int
    } else {
        doubled_backoff(backoff_after((n - 1) as nat))
    }
}

/// The next waiting time: twice the current one, up to the maximum.
pub fn next_backoff_ms(current_ms: u64) -> (r: u64)
    ensures
        r == doubled_backoff(current_ms as int),
{
    if current_ms < MAX_BACKOFF_MS / 2 {
        current_ms * 2
    } else {
        MAX_BACKOFF_MS
    }
}

/// Every wait lies between one second and fifteen.
pub proof fn backoff_stays_in_range(n: nat)
    ensures
        INITIAL_BACKOFF_MS <= backoff_after(n) <= MAX_BACKOFF_MS,
    decreases n,
{
    if n > 0 {
        backoff_stays_in_range((n - 1) as nat);
    }
}

/// The wait doubles with every failure in a row, up to the maximum.
pub proof fn backoff_grows_exponentially(n: nat)
    ensures
        backoff_after(n) == if INITIAL_BACKOFF_MS * pow2(n) < MAX_BACKOFF_MS {
            INITIAL_BACKOFF_MS * pow2(n)
        } else {
            MAX_BACKOFF_MS as int
        },
    decreases n,
{
    if n == 0 {
        lemma2_to64();
    } else {
        backoff_grows_exponentially((n - 1) as nat);
        lemma_pow2_unfold(n);
    }
}

/// The next wait is at most fifteen seconds; below that it is exactly twice as
/// long as this one.
pub proof fn waits_double_up_to_fifteen_seconds(current_ms: u64, next_ms: u64)
    requires
        call_ensures(next_backoff_ms, (current_ms,), next_ms),
    ensures
        next_ms <= 15_000,
        2 * current_ms < 15_000 ==> next_ms == 2 * current_ms,
        2 * current_ms >= 15_000 ==> next_ms == 15_000,
{
}

} // verus!
