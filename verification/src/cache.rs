//! The crumb cache's rules: when a stored crumb is still good, and until
//! when a crumb is stored. The sqlite store itself lives with the session.

use vstd::prelude::*;

verus! {

/// Wraps `SystemTime::now().duration_since(UNIX_EPOCH)`: the whole seconds
/// since the Unix epoch, 0 when the clock is set before it. It reads the
/// clock, so nothing is stated of the result.
#[verifier::external_body]
fn now_secs() -> (t: i64) {
    match std::time::SystemTime::now().duration_since(std::time::UNIX_EPOCH) {
        Ok(d) => d.as_secs() as i64,
        Err(_) => 0,
    }
}

/// The crumb of a cache row at time `now`: kept only while it has not
/// expired (`expires > now`).
pub open spec fn crumb_at(row: Option<(String, i64)>, now: i64) -> Option<String> {
    match row {
        Some((v, exp)) => if exp > now {
            Some(v)
        } else {
            None
        },
        None => None,
    }
}

/// A cached crumb read back with its expiry: kept only while it has not
/// expired (`expires > now`).
pub fn cached_crumb(row: Option<(String, i64)>, now: i64) -> (r: Option<String>)
    ensures
        r == crumb_at(row, now),
{
    match row {
        Some((v, exp)) => {
            if exp > now {
                Some(v)
            } else {
                None
            }
        },
        None => None,
    }
}

/// The expiry of a crumb stored at `now` for `ttl` seconds.
pub fn crumb_expiry(now: i64, ttl: i64) -> (e: i64)
    requires
        i64::MIN <= now + ttl <= i64::MAX,
    ensures
        e == now + ttl,
{
    now + ttl
}

/// A cache row read back now: the row's crumb when it has not expired at
/// the current time, `None` otherwise. Whatever the clock reads, a crumb
/// that comes back is the row's own, and no row gives no crumb.
pub fn fresh_crumb(row: Option<(String, i64)>) -> (r: Option<String>)
    ensures
        exists|now: i64| r == #[trigger] crumb_at(row, now),
        row is None ==> r is None,
        r matches Some(c) ==> (row matches Some((v, _)) && c == v),
{
    let now = now_secs();
    cached_crumb(row, now)
}

/// The expiry to store with a crumb fetched now and kept for `ttl` seconds:
/// the current time plus `ttl`, saturating at the bounds of `i64`.
pub fn expiry_from_now(ttl: i64) -> (e: i64)
    ensures
        exists|now: i64| e == #[trigger] saturated_sum(now, ttl),
{
    let now = now_secs();
    let wide: i128 = now as i128 + ttl as i128;
    if wide > i64::MAX as i128 {
        assert(i64::MAX == saturated_sum(now, ttl));
        i64::MAX
    } else if wide < i64::MIN as i128 {
        assert(i64::MIN == saturated_sum(now, ttl));
        i64::MIN
    } else {
        let e = crumb_expiry(now, ttl);
        assert(e == saturated_sum(now, ttl));
        e
    }
}

/// `now + ttl` clamped to the range of `i64`.
pub open spec fn saturated_sum(now: i64, ttl: i64) -> i64 {
    let x = now + ttl;
    if x > i64::MAX {
        i64::MAX
    } else if x < i64::MIN {
        i64::MIN
    } else {
        x as i64
    }
}

} // verus!
