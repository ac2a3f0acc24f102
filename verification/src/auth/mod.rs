//! JWT verification against the identity provider's key set (the issuer-checking
//! variant used by the request middleware). The key set itself is fetched, and
//! cached, by the service around this library; everything from the token to the
//! verified claims is decided here.
pub mod claims;
pub mod jwt;

use vstd::prelude::*;
use jwt::{
    decoded_header, decoded_header_kid, rsa_components_accepted, header_fields, decode_claims,
    jwt_error_text, first_match, no_match, spec_token_accepted, Jwk, Jwks, JwtAlgorithm, JwtRules,
    RsaKey, token_claims,
};

verus! {

/// Clock-skew allowance for token expiry, in seconds.
pub const TOKEN_LEEWAY: u64 = 60;

/// The store key under which the key set is cached.
pub const JWKS_CACHE_KEY: &'static str = "jwks";

/// How long the cached key set is kept, in seconds.
pub const CACHE_TTL: u64 = 86400;

/// What the cache lookup of the key set found.
pub enum CachedJwks {
    /// Nothing is cached (or the store could not be read).
    Missing,
    /// A value is cached but does not read as a key set.
    Unreadable,
    /// The cached key set.
    Read(Jwks),
}

/// Where the key set comes from.
pub enum JwksPlan {
    /// Use this key set.
    Use(Jwks),
    /// Fetch it from the identity provider (and cache what comes back).
    Fetch,
}

/// Uses a readable cached key set; otherwise fetches a fresh one.
pub fn jwks_after_cache(cached: CachedJwks) -> (plan: JwksPlan)
    ensures
        match cached {
            CachedJwks::Read(j) => plan == JwksPlan::Use(j),
            _ => plan == JwksPlan::Fetch,
        },
{
    match cached {
        CachedJwks::Read(j) => JwksPlan::Use(j),
        _ => JwksPlan::Fetch,
    }
}

/// Where fetching the key set from the identity provider failed.
pub enum FetchFailure {
    /// The request itself failed.
    Request,
    /// The answer did not read as a key set.
    Parse,
}

impl FetchFailure {
    /// The error of this variant for a failed fetch, with the underlying error's text:
    /// "JWKS fetch failed: ..." or "JWKS parse failed: ...".
    pub fn message(&self, detail: &str) -> (m: String)
        ensures
            m@ == match self {
                FetchFailure::Request => "JWKS fetch failed: "@ + detail@,
                FetchFailure::Parse => "JWKS parse failed: "@ + detail@,
            },
    {
        match self {
            FetchFailure::Request => String::from_str("JWKS fetch failed: ").concat(detail),
            FetchFailure::Parse => String::from_str("JWKS parse failed: ").concat(detail),
        }
    }
}

/// The claims the middleware reads from a verified token.
pub struct Claims {
    pub sub: String,
    pub groups: Option<Vec<String>>,
    pub email: Option<String>,
    pub preferred_username: Option<String>,
    pub exp: usize,
}

/// Why a token was not accepted.
pub enum VerifyError {
    /// The token's header could not be read; the reason's text.
    InvalidHeader(String),
    /// The header names no key.
    MissingKid,
    /// No key of the key set has the named id.
    KidNotFound(String),
    /// The selected key's RSA components were refused.
    InvalidKey,
    /// Signature or claims checks failed; the reason's text.
    ValidationFailed(String),
}

impl VerifyError {
    /// The message of the error.
    pub fn message(&self) -> (m: String)
        ensures
            m@ == match self {
                VerifyError::InvalidHeader(d) => "Invalid token header: "@ + d@,
                VerifyError::MissingKid => "Missing key ID (kid) in token"@,
                VerifyError::KidNotFound(kid) => "Key ID "@ + kid@ + " not found in JWKS"@,
                VerifyError::InvalidKey => "Invalid RSA key components"@,
                VerifyError::ValidationFailed(d) => "JWT validation failed: "@ + d@,
            },
    {
        match self {
            VerifyError::InvalidHeader(d) => String::from_str("Invalid token header: ").concat(
                d.as_str(),
            ),
            VerifyError::MissingKid => String::from_str("Missing key ID (kid) in token"),
            VerifyError::KidNotFound(kid) => String::from_str("Key ID ").concat(kid.as_str()).concat(
                " not found in JWKS",
            ),
            VerifyError::InvalidKey => String::from_str("Invalid RSA key components"),
            VerifyError::ValidationFailed(d) => String::from_str("JWT validation failed: ").concat(
                d.as_str(),
            ),
        }
    }
}

/// The rules for tokens of `issuer`: RS256, that issuer only, no audience check, and
/// `TOKEN_LEEWAY` seconds of leeway.
pub fn validation_rules(issuer: &str) -> (rules: JwtRules)
    ensures
        rules.algorithm == JwtAlgorithm::RS256,
        rules.issuer@ == issuer@,
        rules.audiences@.len() == 0,
        !rules.validate_audience,
        rules.leeway == TOKEN_LEEWAY,
{
    JwtRules {
        algorithm: JwtAlgorithm::RS256,
        issuer: String::from_str(issuer),
        audiences: Vec::new(),
        validate_audience: false,
        leeway: TOKEN_LEEWAY,
    }
}

/// Takes out of `jwks` the first key whose id is `kid`.
pub fn get_jwk(jwks: Jwks, kid: &str) -> (res: Result<Jwk, String>)
    ensures
        match res {
            Ok(k) => exists|i: int| first_match(jwks.keys@, kid@, i) && jwks.keys@[i] == k,
            Err(m) => no_match(jwks.keys@, kid@) && m@ == "Key ID "@ + kid@ + " not found in JWKS"@,
        },
{
    let ghost all = jwks.keys@;
    let mut keys = jwks.keys;
    let target = String::from_str(kid);
    let n = keys.len();
    let mut i: usize = 0;
    while i < n
        invariant
            n == keys@.len(),
            keys@ == all,
            all == jwks.keys@,
            i <= n,
            target@ == kid@,
            forall|j: int| 0 <= j < i ==> (#[trigger] all[j]).kid@ != kid@,
        decreases n - i,
    {
        if keys[i].kid == target {
            assert(first_match(all, kid@, i as int));
            let k = keys.swap_remove(i);
            assert(all[i as int] == k);
            return Ok(k);
        }
        i = i + 1;
    }
    Err(String::from_str("Key ID ").concat(kid).concat(" not found in JWKS"))
}

/// How verification ends before the token is decoded: the error, or the position
/// of the key that must verify the token.
pub open spec fn spec_verification_key(token: Seq<char>, keys: Seq<Jwk>) -> Result<int, VerifyError> {
    match decoded_header_kid(token) {
        None => Err(VerifyError::InvalidHeader(arbitrary())),
        Some(None) => Err(VerifyError::MissingKid),
        Some(Some(kid)) => if no_match(keys, kid) {
            Err(VerifyError::KidNotFound(arbitrary()))
        } else {
            let i = choose|i: int| first_match(keys, kid, i);
            if rsa_components_accepted(keys[i].n@, keys[i].e@) {
                Ok(i)
            } else {
                Err(VerifyError::InvalidKey)
            }
        },
    }
}

/// The key id that the token's header names: `InvalidHeader`, with the text of the
/// header's error, when the header cannot be read; `MissingKid` when it names none.
pub fn token_kid(token: &str) -> (res: Result<String, VerifyError>)
    ensures
        match decoded_header_kid(token@) {
            None => res matches Err(VerifyError::InvalidHeader(d)) && d@ == decoded_header(
                token@,
            )->Err_0,
            Some(None) => res matches Err(VerifyError::MissingKid),
            Some(Some(kid)) => res matches Ok(k) && k@ == kid,
        },
{
    match header_fields(token) {
        Err(e) => Err(VerifyError::InvalidHeader(e)),
        Ok((None, _)) => Err(VerifyError::MissingKid),
        Ok((Some(kid), _)) => Ok(kid),
    }
}

/// A token that this variant accepts for `issuer` was signed with RS256 by the first
/// key of the key set whose id its header names (a key whose components are accepted),
/// carries an expiry, and was not issued by anyone but `issuer`.
pub proof fn lemma_accepted_token_signed_by_named_key(
    token: Seq<char>,
    keys: Seq<Jwk>,
    issuer: Seq<char>,
    i: int,
)
    requires
        spec_verification_key(token, keys) == Ok::<int, VerifyError>(i),
        spec_token_accepted(token, keys[i].n@, keys[i].e@, JwtAlgorithm::RS256, issuer, Set::empty(), false),
    ensures
        decoded_header(token) is Ok,
        decoded_header(token)->Ok_0.0 is Some,
        first_match(keys, decoded_header(token)->Ok_0.0->Some_0, i),
        rsa_components_accepted(keys[i].n@, keys[i].e@),
        decoded_header(token)->Ok_0.1 == JwtAlgorithm::RS256,
        jwt::token_checks(token, keys[i].n@, keys[i].e@).signature_valid,
        jwt::token_checks(token, keys[i].n@, keys[i].e@).has_expiry,
        jwt::claim_allows(jwt::token_checks(token, keys[i].n@, keys[i].e@).issuer, set![issuer]),
{
    let kid = decoded_header(token)->Ok_0.0->Some_0;
    jwt::lemma_first_match_exists(keys, kid);
}

/// Verifies `token` against the key set `jwks` for `issuer` and gives its claims.
/// An unreadable header, a header without a key id, an id that no key has, and a key
/// whose components are refused each give their error (the header's error text, or the
/// missing id, carried in it);
/// otherwise the token is decoded with the first key of that id under
/// `validation_rules(issuer)`, and a failure there is `ValidationFailed` (with the
/// text "ExpiredSignature" for an expired token). A token that has everything an
/// accepted token has (below) is refused only as expired: whatever its audience claim
/// says, since this variant does not check it. An accepted
/// token is an RS256 token, signed with that key, carrying an expiry, and not issued
/// by anyone but `issuer`; its audience is not checked. The claims given back are the
/// token's own (`token_claims`).
pub fn verify(token: &str, jwks: &Jwks, issuer: &str) -> (res: Result<serde_json::Value, VerifyError>)
    ensures
        match spec_verification_key(token@, jwks.keys@) {
            Err(VerifyError::InvalidHeader(_)) => res matches Err(VerifyError::InvalidHeader(d))
                && d@ == decoded_header(token@)->Err_0,
            Err(VerifyError::MissingKid) => res matches Err(VerifyError::MissingKid),
            Err(VerifyError::KidNotFound(_)) => res matches Err(VerifyError::KidNotFound(kid))
                && decoded_header_kid(token@) == Some(Some(kid@)),
            Err(VerifyError::InvalidKey) => res matches Err(VerifyError::InvalidKey),
            Err(VerifyError::ValidationFailed(_)) => false,
            Ok(i) => {
                &&& (res is Ok || res matches Err(VerifyError::ValidationFailed(_)))
                &&& res is Ok ==> spec_token_accepted(
                    token@,
                    jwks.keys@[i].n@,
                    jwks.keys@[i].e@,
                    JwtAlgorithm::RS256,
                    issuer@,
                    Set::empty(),
                    false,
                )
                &&& spec_token_accepted(
                    token@,
                    jwks.keys@[i].n@,
                    jwks.keys@[i].e@,
                    JwtAlgorithm::RS256,
                    issuer@,
                    Set::empty(),
                    false,
                ) ==> (res is Ok || (res matches Err(VerifyError::ValidationFailed(d)) && d@
                    == "ExpiredSignature"@))
            },
        },
        res matches Ok(c) ==> c == token_claims(token@),
{
    let kid = token_kid(token)?;
    let jwk = match jwks.find_key(kid.as_str()) {
        None => return Err(VerifyError::KidNotFound(kid)),
        Some(k) => k,
    };
    proof {
        let i = choose|i: int| first_match(jwks.keys@, kid@, i) && jwks.keys@[i] == *jwk;
        let c = choose|i: int| first_match(jwks.keys@, kid@, i);
        jwt::lemma_first_match_unique(jwks.keys@, kid@, i, c);
    }
    let key = match RsaKey::from_components(jwk.n.as_str(), jwk.e.as_str()) {
        Ok(key) => key,
        Err(_) => return Err(VerifyError::InvalidKey),
    };
    let rules = validation_rules(issuer);
    match decode_claims(token, &key, &rules) {
        Ok(claims) => Ok(claims),
        Err((true, _)) => Err(VerifyError::ValidationFailed(String::from_str("ExpiredSignature"))),
        Err((false, e)) => Err(VerifyError::ValidationFailed(jwt_error_text(&e))),
    }
}

} // verus!
