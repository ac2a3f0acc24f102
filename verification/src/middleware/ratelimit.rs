//! The counter-based rate limit: every request increments its client's counter, which
//! lives for one window from its first increment; a request whose count is over the
//! limit is refused and the client's key is blocked for the window.
use vstd::prelude::*;
use super::Rejection;
use crate::services::redis::RedisService;

verus! {

/// The key of the counter of client `ip`: `ratelimit:` and the address.
pub fn ratelimit_key(ip: &str) -> (key: String)
    ensures
        key@ == "ratelimit:"@ + ip@,
{
    String::from_str("ratelimit:").concat(ip)
}

/// Refuses a request exactly when the count its increment returned is over the limit.
pub open spec fn spec_check(count: int, rate_limit: int) -> Result<(), Rejection> {
    if count > rate_limit {
        Err(Rejection::TooManyRequests)
    } else {
        Ok(())
    }
}

/// Decides a request from the count its increment returned. On refusal the caller
/// blocks the key for the window.
pub fn check(count: i32, rate_limit: i32) -> (res: Result<(), Rejection>)
    ensures
        res == spec_check(count as int, rate_limit as int),
{
    if count > rate_limit {
        return Err(Rejection::TooManyRequests);
    }
    Ok(())
}

/// In one window the counter's increments return 1, 2, 3, ...; so the `k`-th request
/// of a client in a window is refused exactly when `k` is over the limit, and only the
/// first request gives the key its lifetime.
pub proof fn lemma_kth_request_in_window(k: i32, rate_limit: i32)
    requires
        k >= 1,
    ensures
        spec_check(k as int, rate_limit as int) is Err <==> k > rate_limit,
        RedisService::spec_expiry_due(k) <==> k == 1,
{
}

} // verus!
