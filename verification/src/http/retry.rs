//! Retry/backoff policy for Yahoo HTTP requests.
//!
//! Deciding what to do with one request attempt (return the body, sleep and
//! retry, or give up with an error) is kept apart from the request loop that
//! performs the network calls, so that the policy is a plain function of the
//! attempt count, the retry budget and what the attempt produced.

use std::time::Duration;

use vstd::arithmetic::power2::*;
use vstd::prelude::*;

use crate::error::YfError;

verus! {

/// The duration that `Duration::from_secs(secs)` returns.
pub uninterp spec fn secs_duration(secs: u64) -> Duration;

/// Wraps `std::time::Duration::from_secs`: the result is named by
/// [`secs_duration`]; nothing else about it is stated here.
#[verifier::external_body]
fn duration_from_secs(secs: u64) -> (d: Duration)
    ensures
        d == secs_duration(secs),
{
    Duration::from_secs(secs)
}

/// `2^attempt` seconds, saturating at `u64::MAX`.
pub open spec fn backoff_secs(attempt: nat) -> u64 {
    if pow2(attempt) > u64::MAX {
        u64::MAX
    } else {
        pow2(attempt) as u64
    }
}

/// `2^exp`, saturating at `u64::MAX` (the behaviour of `2u64.saturating_pow`).
fn saturating_pow2(exp: u32) -> (r: u64)
    ensures
        r == backoff_secs(exp as nat),
{
    broadcast use lemma_pow2_unfold;

    let mut r: u64 = 1;
    let mut i: u32 = 0;
    proof {
        lemma2_to64();
    }
    while i < exp
        invariant
            i <= exp,
            r == backoff_secs(i as nat),
            pow2(i as nat) <= u64::MAX ==> r == pow2(i as nat),
        decreases exp - i,
    {
        if r > u64::MAX / 2 {
            proof {
                lemma_pow2_unfold((i + 1) as nat);
                if (i + 1) < exp {
                    lemma_pow2_strictly_increases((i + 1) as nat, exp as nat);
                }
            }
            return u64::MAX;
        }
        proof {
            lemma_pow2_unfold((i + 1) as nat);
        }
        r = r * 2;
        i = i + 1;
    }
    r
}

/// Exponential backoff for attempt `attempt` (counted after it was consumed):
/// `2^attempt` seconds, saturating. The first retry (`attempt == 1`) waits 2s,
/// the next 4s, and so on.
pub fn backoff_for(attempt: u32) -> (d: Duration)
    ensures
        d == secs_duration(backoff_secs(attempt as nat)),
{
    duration_from_secs(saturating_pow2(attempt))
}

/// Outcome of evaluating a single request attempt.
#[derive(Debug)]
pub enum Decision {
    /// Request succeeded (HTTP 2xx): return the body.
    Success,
    /// Transient failure: sleep `backoff`, then retry. With `reset_auth` the
    /// caller first clears its cached crumb and consent cookie.
    Retry { backoff: Duration, reset_auth: bool },
    /// Permanent failure: surface `error` to the caller.
    GiveUp { error: YfError },
}

/// The retry that follows attempt number `attempt`.
pub open spec fn is_retry_after(d: Decision, attempt: u32, reset_auth: bool) -> bool {
    d == Decision::Retry {
        backoff: secs_duration(backoff_secs(attempt as nat + 1)),
        reset_auth,
    }
}

/// A terminal non-success HTTP status, reported with an empty body.
pub open spec fn is_status_give_up(d: Decision, status: u16) -> bool {
    d matches Decision::GiveUp { error: YfError::Status { status: s, body } } && s == status
        && body@.len() == 0
}

/// What [`decide_status`] decides for one HTTP status.
pub open spec fn status_decision_ok(
    d: Decision,
    status: u16,
    attempt: u32,
    retries: u32,
    retry_401: bool,
) -> bool {
    if 200 <= status <= 299 {
        d == Decision::Success
    } else if status == 429 {
        d == Decision::GiveUp { error: YfError::RateLimited }
    } else if status == 401 {
        if retry_401 && attempt < retries {
            is_retry_after(d, attempt, true)
        } else {
            d matches Decision::GiveUp { error: YfError::Msg(m) } && m@
                == "unauthorized (401) after retries"@
        }
    } else if 500 <= status < 600 {
        if attempt < retries {
            is_retry_after(d, attempt, false)
        } else {
            is_status_give_up(d, status)
        }
    } else {
        is_status_give_up(d, status)
    }
}

/// Classify the HTTP `status` of one attempt.
///
/// `attempt` is the number of attempts already consumed, `retries` the number
/// of additional attempts permitted. `retry_401` is set only for
/// crumb-authenticated requests, where a 401 means the crumb expired.
///
/// - 2xx: success.
/// - 429: give up with [`YfError::RateLimited`], whatever the budget.
/// - 401: retry with `reset_auth` when `retry_401` holds and budget remains,
///   otherwise give up with a message error.
/// - 5xx: retry while budget remains, otherwise give up with the status.
/// - any other status: give up with the status (empty body).
pub fn decide_status(status: u16, attempt: u32, retries: u32, retry_401: bool) -> (d: Decision)
    ensures
        status_decision_ok(d, status, attempt, retries, retry_401),
{
    if 200 <= status && status <= 299 {
        return Decision::Success;
    }
    if status == 429 {
        return Decision::GiveUp { error: YfError::RateLimited };
    }
    if status == 401 {
        if retry_401 && attempt < retries {
            return Decision::Retry { backoff: backoff_for(attempt + 1), reset_auth: true };
        }
        return Decision::GiveUp { error: YfError::msg("unauthorized (401) after retries") };
    }
    if 500 <= status && status < 600 {
        if attempt < retries {
            return Decision::Retry { backoff: backoff_for(attempt + 1), reset_auth: false };
        }
        return Decision::GiveUp { error: YfError::Status { status, body: String::new() } };
    }
    Decision::GiveUp { error: YfError::Status { status, body: String::new() } }
}

/// Classify a transport (connection) error: retried while budget remains,
/// otherwise surfaced unchanged.
pub fn decide_transport(err: YfError, attempt: u32, retries: u32) -> (d: Decision)
    ensures
        attempt < retries ==> is_retry_after(d, attempt, false),
        attempt >= retries ==> (d == (Decision::GiveUp { error: err })),
{
    if attempt < retries {
        Decision::Retry { backoff: backoff_for(attempt + 1), reset_auth: false }
    } else {
        Decision::GiveUp { error: err }
    }
}

} // verus!
