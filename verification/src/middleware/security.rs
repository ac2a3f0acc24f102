//! The security layer of the older route set: blocked addresses are refused first,
//! then (when the policy asks for it) the bearer token is required and verified, and
//! last the counter-based rate limit applies.
use vstd::prelude::*;
use super::Rejection;
use crate::utils::{
    ascii_chars, bearer_bytes, extract_token, header_to_str, lemma_bearer_token_roundtrip,
    spec_extract_token, spec_header_str, visible_ascii,
};

verus! {

/// The client address: the `x-forwarded-for` header read as text, or `unknown` when
/// it is absent or not text.
pub fn extract_ip(forwarded_for: Option<&[u8]>) -> (ip: String)
    ensures
        ip@ == match forwarded_for {
            Some(b) => match spec_header_str(b@) {
                Some(s) => s,
                None => "unknown"@,
            },
            None => "unknown"@,
        },
{
    match forwarded_for {
        Some(bytes) => match header_to_str(bytes) {
            Some(s) => String::from_str(s),
            None => String::from_str("unknown"),
        },
        None => String::from_str("unknown"),
    }
}

/// The bearer token of the `authorization` header, or 401 when there is none.
pub fn authenticate(authorization: Option<&[u8]>) -> (res: Result<&str, Rejection>)
    ensures
        match spec_extract_token(
            match authorization {
                Some(b) => Some(b@),
                None => None,
            },
        ) {
            Some(t) => res matches Ok(s) && s@ == t,
            None => res == Err::<&str, Rejection>(Rejection::Unauthorized),
        },
{
    match extract_token(authorization) {
        Some(t) => Ok(t),
        None => Err(Rejection::Unauthorized),
    }
}

/// Whether `ip` is one of `block_ips`.
pub fn is_blocked(block_ips: &Vec<String>, ip: &str) -> (blocked: bool)
    ensures
        blocked <==> exists|i: int| 0 <= i < block_ips@.len() && (#[trigger] block_ips@[i])@ == ip@,
{
    let target = String::from_str(ip);
    let n = block_ips.len();
    let mut i: usize = 0;
    while i < n
        invariant
            n == block_ips@.len(),
            i <= n,
            target@ == ip@,
            forall|j: int| 0 <= j < i ==> (#[trigger] block_ips@[j])@ != ip@,
        decreases n - i,
    {
        if block_ips[i] == target {
            assert(block_ips@[i as int]@ == ip@);
            return true;
        }
        i = i + 1;
    }
    false
}

/// The first step of the layer.
pub enum SecurityStep {
    /// Turn the request away.
    Reject(Rejection),
    /// Verify this bearer token, then apply the rate limit.
    Authenticate(String),
    /// Apply the rate limit.
    CheckRate,
}

/// The first step: a blocked address gets 403; when authentication is required, a
/// request without a bearer token gets 401 and one with a token goes on to verify it;
/// otherwise the rate limit comes next.
pub open spec fn spec_security_first_step(
    blocked: bool,
    require_auth: bool,
    authorization: Option<Seq<u8>>,
) -> Result<Option<Seq<char>>, Rejection> {
    if blocked {
        Err(Rejection::Forbidden)
    } else if require_auth {
        match spec_extract_token(authorization) {
            None => Err(Rejection::Unauthorized),
            Some(t) => Ok(Some(t)),
        }
    } else {
        Ok(None)
    }
}

/// Decides the first step for a request from `ip` under the policy's blocked
/// addresses and authentication switch.
pub fn security_first_step(
    ip: &str,
    block_ips: &Vec<String>,
    require_auth: bool,
    authorization: Option<&[u8]>,
) -> (step: SecurityStep)
    ensures
        match spec_security_first_step(
            exists|i: int| 0 <= i < block_ips@.len() && (#[trigger] block_ips@[i])@ == ip@,
            require_auth,
            match authorization {
                Some(b) => Some(b@),
                None => None,
            },
        ) {
            Err(r) => step == SecurityStep::Reject(r),
            Ok(Some(t)) => step matches SecurityStep::Authenticate(s) && s@ == t,
            Ok(None) => step == SecurityStep::CheckRate,
        },
{
    if is_blocked(block_ips, ip) {
        return SecurityStep::Reject(Rejection::Forbidden);
    }
    if require_auth {
        match authenticate(authorization) {
            Ok(t) => SecurityStep::Authenticate(String::from_str(t)),
            Err(r) => SecurityStep::Reject(r),
        }
    } else {
        SecurityStep::CheckRate
    }
}

/// A blocked address is refused with 403 before anything else is looked at, whatever
/// it sends and whatever the policy asks.
pub proof fn lemma_blocked_address_refused(require_auth: bool, authorization: Option<Seq<u8>>)
    ensures
        spec_security_first_step(true, require_auth, authorization) == Err::<Option<Seq<char>>, Rejection>(
            Rejection::Forbidden,
        ),
{
}

/// Under a policy that does not require authentication, an address that is not blocked
/// goes straight to the rate limit whatever `Authorization` header it sends (a bearer
/// token included). Under one that does, a request whose header is `Bearer ` and a
/// visible-ASCII token has exactly that token verified, and one without a bearer
/// token is refused with 401.
pub proof fn lemma_authentication_only_when_required(authorization: Option<Seq<u8>>, token: Seq<u8>)
    ensures
        spec_security_first_step(false, false, authorization) == Ok::<Option<Seq<char>>, Rejection>(
            None,
        ),
        visible_ascii(token) ==> spec_security_first_step(false, true, Some(bearer_bytes() + token))
            == Ok::<Option<Seq<char>>, Rejection>(Some(ascii_chars(token))),
        spec_extract_token(authorization) is None ==> spec_security_first_step(
            false,
            true,
            authorization,
        ) == Err::<Option<Seq<char>>, Rejection>(Rejection::Unauthorized),
{
    if visible_ascii(token) {
        lemma_bearer_token_roundtrip(token);
    }
}

} // verus!
