//! The retry policy of the chunk fetcher: which failures are tried again,
//! and after how long.

use vstd::prelude::*;

verus! {

/// The wait before the first retry of a chunk fetch, in milliseconds.
pub const FETCH_RETRY_INITIAL_MS: u64 = 100;

/// The longest wait between two tries of a chunk fetch, in milliseconds.
pub const FETCH_RETRY_CAP_MS: u64 = 10_000;

/// How many times a chunk fetch is tried when nothing else is configured.
pub const DEFAULT_MAX_ATTEMPTS: u32 = 3;

/// What the response status of a failed fetch calls for.
#[derive(Clone, Copy, Debug, PartialEq, Eq, Structural)]
pub enum FailureClass {
    /// 401: the credential is refreshed once and the fetch tried once more.
    Unauthorized,
    /// 403: an authorization failure, not retried.
    Forbidden,
    /// 5xx: retried until the attempts run out.
    Transient,
    /// Anything else: not retried.
    Fatal,
}

/// The class of a response status.
pub open spec fn failure_class(status: u16) -> FailureClass {
    if status == 401 {
        FailureClass::Unauthorized
    } else if status == 403 {
        FailureClass::Forbidden
    } else if 500 <= status <= 599 {
        FailureClass::Transient
    } else {
        FailureClass::Fatal
    }
}

/// The class of a response status.
pub fn classify_status(status: u16) -> (class: FailureClass)
    ensures
        class == failure_class(status),
{
    if status == 401 {
        FailureClass::Unauthorized
    } else if status == 403 {
        FailureClass::Forbidden
    } else if 500 <= status && status <= 599 {
        FailureClass::Transient
    } else {
        FailureClass::Fatal
    }
}

/// Whether a link that expires at `expires_at` is no longer valid at `now`:
/// a link without an expiry never expires, one with an expiry is invalid
/// after that instant.
pub open spec fn expired(expires_at: Option<nat>, now: nat) -> bool {
    match expires_at {
        Some(t) => now > t,
        None => false,
    }
}

/// Whether a link that expires at `expires_at` is no longer valid at `now`.
pub fn is_expired(expires_at: Option<u64>, now: u64) -> (gone: bool)
    ensures
        gone == expired(
            match expires_at {
                Some(t) => Some(t as nat),
                None => None,
            },
            now as nat,
        ),
{
    match expires_at {
        Some(t) => now > t,
        None => false,
    }
}

/// The smaller of two numbers.
pub open spec fn least(a: nat, b: nat) -> nat {
    if a <= b {
        a
    } else {
        b
    }
}

/// Exponential backoff: `initial`, doubled `doublings` times, and never more
/// than `cap`.
pub open spec fn backoff(initial: nat, cap: nat, doublings: nat) -> nat
    decreases doublings,
{
    if doublings == 0 {
        least(initial, cap)
    } else {
        least(2 * backoff(initial, cap, (doublings - 1) as nat), cap)
    }
}

/// A backoff never exceeds its cap.
pub proof fn lemma_backoff_capped(initial: nat, cap: nat, doublings: nat)
    ensures
        backoff(initial, cap, doublings) <= cap,
    decreases doublings,
{
    if doublings > 0 {
        lemma_backoff_capped(initial, cap, (doublings - 1) as nat);
    }
}

/// A backoff never shrinks as the doublings grow.
pub proof fn lemma_backoff_grows(initial: nat, cap: nat, fewer: nat, more: nat)
    requires
        fewer <= more,
    ensures
        backoff(initial, cap, fewer) <= backoff(initial, cap, more),
    decreases more,
{
    if fewer < more {
        lemma_backoff_grows(initial, cap, fewer, (more - 1) as nat);
        lemma_backoff_capped(initial, cap, (more - 1) as nat);
    }
}

/// Once a backoff has reached its cap, or is zero, it stays there.
proof fn lemma_backoff_settled(initial: nat, cap: nat, reached: nat, later: nat)
    requires
        reached <= later,
        backoff(initial, cap, reached) == cap || backoff(initial, cap, reached) == 0,
    ensures
        backoff(initial, cap, later) == backoff(initial, cap, reached),
    decreases later,
{
    if reached < later {
        lemma_backoff_settled(initial, cap, reached, (later - 1) as nat);
    }
}

/// Exponential backoff: `initial`, doubled `doublings` times, and never more
/// than `cap`.
pub fn backoff_ms(initial: u64, cap: u64, doublings: u64) -> (wait: u64)
    ensures
        wait == backoff(initial as nat, cap as nat, doublings as nat),
{
    let mut wait: u64 = if initial <= cap {
        initial
    } else {
        cap
    };
    let mut done: u64 = 0;
    while done < doublings
        invariant
            done <= doublings,
            wait <= cap,
            wait == backoff(initial as nat, cap as nat, done as nat),
        decreases doublings - done,
    {
        if wait == cap || wait == 0 {
            proof {
                lemma_backoff_settled(initial as nat, cap as nat, done as nat, doublings as nat);
            }
            return wait;
        }
        wait = if wait >= cap - wait {
            cap
        } else {
            wait + wait
        };
        done = done + 1;
    }
    wait
}

/// The wait before a chunk fetch is tried again, after `attempts` tries have
/// failed.
pub open spec fn retry_delay(attempts: nat) -> nat {
    backoff(
        FETCH_RETRY_INITIAL_MS as nat,
        FETCH_RETRY_CAP_MS as nat,
        if attempts == 0 {
            0
        } else {
            (attempts - 1) as nat
        },
    )
}

/// The wait before a chunk fetch is tried again, after `attempts` tries have
/// failed.
pub fn retry_delay_ms(attempts: u64) -> (wait: u64)
    ensures
        wait == retry_delay(attempts as nat),
{
    let doublings: u64 = if attempts == 0 {
        0
    } else {
        attempts - 1
    };
    backoff_ms(FETCH_RETRY_INITIAL_MS, FETCH_RETRY_CAP_MS, doublings)
}

} // verus!
