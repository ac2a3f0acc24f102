//! The per-client request budget: each client address may make `RATE_LIMIT`
//! requests in a window of `WINDOW_SECS` seconds. The count lives in the key-value
//! store under `rate:<address>`; this module decides, from what the store holds, whether
//! a request passes and which updates the store must get.
use std::sync::Arc;
use vstd::prelude::*;
use crate::numeric::{decimal, spec_parse_i64, parse_i64, lemma_parse_decimal_roundtrip};
use crate::services::RedisService;

verus! {

/// Requests a client may make in one window.
pub const RATE_LIMIT: u32 = 100;

/// Length of a counting window, in seconds.
pub const WINDOW_SECS: u64 = 60;

/// What to do with one request, given the count the store holds for its client.
pub struct RateDecision {
    /// The request may go on.
    pub allowed: bool,
    /// The stored count must be incremented.
    pub increment: bool,
    /// The count's key must be given the window's lifetime.
    pub start_window: bool,
}

/// The count that a stored value stands for: its `i64` reading, or 0 when the key
/// is absent or its value does not read as a number.
pub open spec fn stored_count(stored: Option<Seq<char>>) -> int {
    match stored {
        Some(s) => match spec_parse_i64(s) {
            Some(v) => v,
            None => 0,
        },
        None => 0,
    }
}

/// A request passes while the count is under the limit; a passing request is counted,
/// and the first one of a window starts the window.
pub open spec fn spec_rate_decision(stored: Option<Seq<char>>) -> RateDecision {
    let count = stored_count(stored);
    if count >= RATE_LIMIT as int {
        RateDecision { allowed: false, increment: false, start_window: false }
    } else {
        RateDecision { allowed: true, increment: true, start_window: count == 0 }
    }
}

/// The rate-limit policy, with the store that holds its counters.
pub struct Policy {
    redis: Arc<RedisService>,
}

impl Policy {
    pub closed spec fn store(&self) -> Arc<RedisService> {
        self.redis
    }

    pub fn new(redis: Arc<RedisService>) -> (p: Self)
        ensures
            p.store() == redis,
    {
        Policy { redis }
    }

    /// The store that holds the counters.
    pub fn redis(&self) -> (r: &Arc<RedisService>)
        ensures
            *r == self.store(),
    {
        &self.redis
    }

    /// The key under which the count of client `ip` is kept: `rate:` and the address.
    pub fn rate_key(ip: &str) -> (key: String)
        ensures
            key@ == seq!['r', 'a', 't', 'e', ':'] + ip@,
    {
        let prefix = "rate:";
        proof {
            reveal_strlit("rate:");
        }
        let key = String::from_str(prefix).concat(ip);
        assert(key@ =~= seq!['r', 'a', 't', 'e', ':'] + ip@);
        key
    }

    /// Decides one request from the value the store holds for its client (`None` when
    /// the key is absent or could not be read).
    pub fn rate_decision(stored: Option<&str>) -> (d: RateDecision)
        ensures
            d == spec_rate_decision(
                match stored {
                    Some(s) => Some(s@),
                    None => None,
                },
            ),
    {
        let count: i64 = match stored {
            Some(s) => match parse_i64(s) {
                Some(v) => v,
                None => 0,
            },
            None => 0,
        };
        if count >= RATE_LIMIT as i64 {
            RateDecision { allowed: false, increment: false, start_window: false }
        } else {
            RateDecision { allowed: true, increment: true, start_window: count == 0 }
        }
    }
}

/// What the store holds for a client after `count` counted requests in the window:
/// nothing before the first, then the decimal text of the count, as an increment
/// writes it.
pub open spec fn stored_value(count: nat) -> Option<Seq<char>> {
    if count == 0 {
        None
    } else {
        Some(decimal(count))
    }
}

/// The count after `k` requests of one client in one window, each decided by
/// `spec_rate_decision` on what the store then holds.
pub open spec fn count_after(k: nat) -> nat
    decreases k,
{
    if k == 0 {
        0
    } else {
        let c = count_after((k - 1) as nat);
        if spec_rate_decision(stored_value(c)).increment {
            c + 1
        } else {
            c
        }
    }
}

/// Within one window, starting from no count, the request that follows `k` earlier
/// requests of the same client passes exactly when `k` is under `RATE_LIMIT`; the count
/// stops at the limit; only the first request starts the window.
pub proof fn lemma_window_admits_rate_limit(k: nat)
    ensures
        count_after(k) == (if k < RATE_LIMIT as nat { k } else { RATE_LIMIT as nat }),
        spec_rate_decision(stored_value(count_after(k))).allowed <==> k < RATE_LIMIT as nat,
        spec_rate_decision(stored_value(count_after(k))).start_window <==> k == 0,
    decreases k,
{
    if k > 0 {
        lemma_window_admits_rate_limit((k - 1) as nat);
        let c = count_after((k - 1) as nat);
        if c > 0 {
            lemma_parse_decimal_roundtrip(c);
        }
    }
    let c = count_after(k);
    if c > 0 {
        lemma_parse_decimal_roundtrip(c);
    }
}

} // verus!
