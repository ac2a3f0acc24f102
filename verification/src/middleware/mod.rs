//! The request check in front of the protected routes: first the client's request
//! budget, then its bearer token, then the token's verification. The store lookups and
//! the key-set fetch happen in the service around this library; each decision between
//! them is made here.
pub mod ratelimit;
pub mod security;

use vstd::prelude::*;
use crate::utils::{
    ascii_chars, bearer_bytes, extract_token, lemma_bearer_token_roundtrip, spec_extract_token,
    visible_ascii,
};

verus! {

/// How a request is turned away.
#[derive(PartialEq, Eq, Structural, Debug, Clone, Copy)]
pub enum Rejection {
    /// 400: a required parameter is missing.
    BadRequest,
    /// 401: no usable credentials.
    Unauthorized,
    /// 403: the client may not have this.
    Forbidden,
    /// 429: the client's request budget is spent.
    TooManyRequests,
    /// 502: an upstream call failed.
    BadGateway,
}

impl Rejection {
    /// The HTTP status code of the rejection.
    pub fn status_code(&self) -> (code: u16)
        ensures
            code == match self {
                Rejection::BadRequest => 400u16,
                Rejection::Unauthorized => 401u16,
                Rejection::Forbidden => 403u16,
                Rejection::TooManyRequests => 429u16,
                Rejection::BadGateway => 502u16,
            },
    {
        match self {
            Rejection::BadRequest => 400,
            Rejection::Unauthorized => 401,
            Rejection::Forbidden => 403,
            Rejection::TooManyRequests => 429,
            Rejection::BadGateway => 502,
        }
    }
}

/// What the middleware does after the rate-limit check.
pub enum AuthStep {
    /// Turn the request away.
    Reject(Rejection),
    /// Verify this bearer token.
    Verify(String),
}

/// The optional header bytes as a spec value.
pub open spec fn header_view(h: Option<&[u8]>) -> Option<Seq<u8>> {
    match h {
        Some(b) => Some(b@),
        None => None,
    }
}

/// The step after the rate-limit check: a client over its budget gets 429; otherwise
/// a request without a bearer token gets 401, and one with a token goes on to verify it.
pub open spec fn spec_auth_after_rate_check(allowed: bool, authorization: Option<Seq<u8>>) -> Option<
    Result<Seq<char>, Rejection>,
> {
    if !allowed {
        Some(Err(Rejection::TooManyRequests))
    } else {
        match spec_extract_token(authorization) {
            None => Some(Err(Rejection::Unauthorized)),
            Some(t) => Some(Ok(t)),
        }
    }
}

/// Decides the step after the rate-limit check, given whether the client was within
/// its budget and the request's `Authorization` header.
pub fn auth_after_rate_check(allowed: bool, authorization: Option<&[u8]>) -> (step: AuthStep)
    ensures
        match spec_auth_after_rate_check(allowed, header_view(authorization)) {
            Some(Ok(t)) => step matches AuthStep::Verify(s) && s@ == t,
            Some(Err(r)) => step == AuthStep::Reject(r),
            None => false,
        },
{
    if !allowed {
        return AuthStep::Reject(Rejection::TooManyRequests);
    }
    match extract_token(authorization) {
        None => AuthStep::Reject(Rejection::Unauthorized),
        Some(t) => AuthStep::Verify(String::from_str(t)),
    }
}

/// The step after verification: verified claims go on with the request; any
/// verification error is answered 401.
pub fn after_verification<C, E>(verified: Result<C, E>) -> (res: Result<C, Rejection>)
    ensures
        match verified {
            Ok(c) => res == Ok::<C, Rejection>(c),
            Err(_) => res == Err::<C, Rejection>(Rejection::Unauthorized),
        },
{
    match verified {
        Ok(c) => Ok(c),
        Err(_) => Err(Rejection::Unauthorized),
    }
}

/// Where a request ends in the middleware: forwarded with claims, or turned away.
pub open spec fn spec_middleware_outcome<C, E>(
    allowed: bool,
    authorization: Option<Seq<u8>>,
    verified: Result<C, E>,
) -> Result<C, Rejection> {
    match spec_auth_after_rate_check(allowed, authorization) {
        Some(Ok(_)) => match verified {
            Ok(c) => Ok(c),
            Err(_) => Err(Rejection::Unauthorized),
        },
        Some(Err(r)) => Err(r),
        None => Err(Rejection::Unauthorized),
    }
}

/// The middleware forwards a request exactly when the client is within its budget, the
/// request carries a bearer token and the token verifies; a client over its budget is
/// answered 429 whatever it sends, and every other refusal is 401.
pub proof fn lemma_middleware_forwards_only_verified<C, E>(
    allowed: bool,
    authorization: Option<Seq<u8>>,
    verified: Result<C, E>,
)
    ensures
        (spec_middleware_outcome(allowed, authorization, verified) is Ok) <==> (allowed
            && spec_extract_token(authorization) is Some && verified is Ok),
        !allowed ==> spec_middleware_outcome(allowed, authorization, verified) == Err::<C, Rejection>(
            Rejection::TooManyRequests,
        ),
        allowed ==> (spec_middleware_outcome(allowed, authorization, verified) is Err
            ==> spec_middleware_outcome(allowed, authorization, verified) == Err::<C, Rejection>(
            Rejection::Unauthorized,
        )),
{
}

/// A client within its budget whose `Authorization` header is `Bearer ` and a
/// visible-ASCII token has that whole token, of whatever length, handed to
/// verification; a client over its budget is answered 429 whatever it sends.
pub proof fn lemma_whole_bearer_token_verified(token: Seq<u8>, authorization: Option<Seq<u8>>)
    ensures
        visible_ascii(token) ==> spec_auth_after_rate_check(true, Some(bearer_bytes() + token))
            == Some(Ok::<Seq<char>, Rejection>(ascii_chars(token))),
        visible_ascii(token) ==> ascii_chars(token).len() == token.len(),
        spec_auth_after_rate_check(false, authorization) == Some(
            Err::<Seq<char>, Rejection>(Rejection::TooManyRequests),
        ),
{
    if visible_ascii(token) {
        lemma_bearer_token_roundtrip(token);
    }
}

} // verus!
