//! JWT verification against a fetched key set (the audience-checking variant): the
//! token's header names a key, the key set supplies the RSA components of that key, and
//! the token is checked with RS256 against them.
use vstd::prelude::*;
use jsonwebtoken::Algorithm as A;
use jsonwebtoken::errors::ErrorKind as K;
use jsonwebtoken::Validation;
use self::JwtAlgorithm as J;

verus! {

#[verifier::external_type_specification]
#[verifier::external_body]
pub struct ExDecodingKey(jsonwebtoken::DecodingKey);

#[verifier::external_type_specification]
#[verifier::external_body]
pub struct ExJwtError(jsonwebtoken::errors::Error);

#[verifier::external_type_specification]
#[verifier::external_body]
pub struct ExJsonValue(serde_json::Value);

/// A JWS signing algorithm, as `jsonwebtoken::Algorithm` lists them.
#[derive(PartialEq, Eq, Structural, Clone, Copy, Debug)]
pub enum JwtAlgorithm {
    HS256,
    HS384,
    HS512,
    ES256,
    ES384,
    RS256,
    RS384,
    RS512,
    PS256,
    PS384,
    PS512,
    EdDSA,
}

/// How a registered claim (`iss`, `aud`) reads in a token's payload.
pub enum ClaimStrings {
    /// The claim is absent or null.
    Missing,
    /// The claim is there but is neither a string nor an array of strings.
    Unreadable,
    /// A single string.
    One(Seq<char>),
    /// An array of strings.
    Many(Set<Seq<char>>),
}

/// What a token carries that `jsonwebtoken::decode` checks apart from the clock,
/// given an RSA key's modulus and exponent.
pub struct TokenChecks {
    /// The signature verifies under the key with the algorithm its header names.
    pub signature_valid: bool,
    /// The payload decodes (URL-safe base64, then JSON) into the claims the library
    /// validates, with an `exp` claim that reads as a timestamp (a non-negative number).
    pub has_expiry: bool,
    /// The payload's `iss` claim.
    pub issuer: ClaimStrings,
    /// The payload's `aud` claim.
    pub audience: ClaimStrings,
}

/// What `jsonwebtoken::decode_header` reads from a token: the header's key id (which
/// may be absent) and algorithm, or the text of the error when the header cannot be
/// read.
pub uninterp spec fn decoded_header(token: Seq<char>) -> Result<(Option<Seq<char>>, JwtAlgorithm), Seq<char>>;

/// The claims `jsonwebtoken::decode` reads from a token's payload as JSON; they depend
/// on the token alone.
pub uninterp spec fn token_claims(token: Seq<char>) -> serde_json::Value;

/// The clock-free facts `jsonwebtoken::decode` checks of a token against the RSA key
/// with modulus `n` and exponent `e`.
pub uninterp spec fn token_checks(token: Seq<char>, n: Seq<char>, e: Seq<char>) -> TokenChecks;

/// The value of a symbol of the URL-safe base64 alphabet, or -1 for any other character.
pub open spec fn base64url_value(c: char) -> int {
    let v = c as int;
    if 65 <= v <= 90 {
        v - 65
    } else if 97 <= v <= 122 {
        v - 97 + 26
    } else if 48 <= v <= 57 {
        v - 48 + 52
    } else if v == 45 {
        62
    } else if v == 95 {
        63
    } else {
        -1
    }
}

/// Text that URL-safe base64 without padding decodes, as the `base64` crate's
/// `URL_SAFE_NO_PAD` engine decides it: only alphabet symbols (no `=`), a length that
/// is not one more than a multiple of four, and no bits set past the last whole byte
/// in a final group of two or three symbols.
pub open spec fn is_base64url_unpadded(s: Seq<char>) -> bool {
    &&& forall|i: int| 0 <= i < s.len() ==> base64url_value(#[trigger] s[i]) >= 0
    &&& s.len() % 4 != 1
    &&& s.len() % 4 == 2 ==> base64url_value(s.last()) % 16 == 0
    &&& s.len() % 4 == 3 ==> base64url_value(s.last()) % 4 == 0
}

/// Whether `jsonwebtoken::DecodingKey::from_rsa_components` accepts a modulus and an
/// exponent: it decodes both with `URL_SAFE_NO_PAD` and fails exactly when one of them
/// does not decode.
pub open spec fn rsa_components_accepted(n: Seq<char>, e: Seq<char>) -> bool {
    is_base64url_unpadded(n) && is_base64url_unpadded(e)
}

/// Whether an algorithm belongs to the RSA family (`RS*` and `PS*`), the one family
/// that a key built from RSA components serves.
pub open spec fn is_rsa_algorithm(a: JwtAlgorithm) -> bool {
    a == JwtAlgorithm::RS256 || a == JwtAlgorithm::RS384 || a == JwtAlgorithm::RS512
        || a == JwtAlgorithm::PS256 || a == JwtAlgorithm::PS384 || a == JwtAlgorithm::PS512
}

/// The key id that the token's header names, when the header can be read.
pub open spec fn decoded_header_kid(token: Seq<char>) -> Option<Option<Seq<char>>> {
    match decoded_header(token) {
        Ok(h) => Some(h.0),
        Err(_) => None,
    }
}

/// A claim passes when it is missing or unreadable, when its single string is
/// accepted, or when one string of its array is accepted.
pub open spec fn claim_allows(claim: ClaimStrings, accepted: Set<Seq<char>>) -> bool {
    match claim {
        ClaimStrings::One(s) => accepted.contains(s),
        ClaimStrings::Many(values) => exists|v: Seq<char>| values.contains(v) && accepted.contains(v),
        _ => true,
    }
}

/// The texts of a list of audiences.
pub open spec fn audience_set(audiences: Seq<String>) -> Set<Seq<char>> {
    audiences.map_values(|a: String| a@).to_set()
}

/// What every token accepted under the given rules with the key `(n, e)` has: a header
/// naming `algorithm`, a signature valid under the key, an `exp` claim, an issuer that
/// the rules accept, and (when audiences are checked) an accepted audience.
pub open spec fn spec_token_accepted(
    token: Seq<char>,
    n: Seq<char>,
    e: Seq<char>,
    algorithm: JwtAlgorithm,
    issuer: Seq<char>,
    audiences: Set<Seq<char>>,
    validate_audience: bool,
) -> bool {
    let checks = token_checks(token, n, e);
    &&& decoded_header(token) is Ok
    &&& decoded_header(token)->Ok_0.1 == algorithm
    &&& checks.signature_valid
    &&& checks.has_expiry
    &&& claim_allows(checks.issuer, set![issuer])
    &&& validate_audience ==> claim_allows(checks.audience, audiences)
}

/// `jsonwebtoken::decode_header`, keeping the key id and the algorithm of the header,
/// or the error's display text. It reads the token alone, so its result is
/// `decoded_header` of the token.
#[verifier::external_body]
pub(crate) fn header_fields(token: &str) -> (res: Result<(Option<String>, JwtAlgorithm), String>)
    ensures
        res is Ok <==> decoded_header(token@) is Ok,
        res is Ok ==> decoded_header(token@) == Ok::<(Option<Seq<char>>, JwtAlgorithm), Seq<char>>(
            (res->Ok_0.0.deep_view(), res->Ok_0.1),
        ),
        res is Err ==> decoded_header(token@) == Err::<(Option<Seq<char>>, JwtAlgorithm), Seq<char>>(
            res->Err_0@,
        ),
{
    let h = match jsonwebtoken::decode_header(token) {
        Ok(h) => h,
        Err(e) => return Err(e.to_string()),
    };
    let alg = match h.alg {
        A::HS256 => J::HS256, A::HS384 => J::HS384, A::HS512 => J::HS512, A::ES256 => J::ES256,
        A::ES384 => J::ES384, A::RS256 => J::RS256, A::RS384 => J::RS384, A::RS512 => J::RS512,
        A::PS256 => J::PS256, A::PS384 => J::PS384, A::PS512 => J::PS512, A::EdDSA => J::EdDSA,
    };
    Ok((h.kid, alg))
}

/// `jsonwebtoken::DecodingKey::from_rsa_components`: it succeeds exactly when the
/// components are accepted; the key it builds is the one with these components.
#[verifier::external_body]
fn rsa_decoding_key(n: &str, e: &str) -> (res: Result<
    jsonwebtoken::DecodingKey,
    jsonwebtoken::errors::Error,
>)
    ensures
        res is Ok <==> rsa_components_accepted(n@, e@),
{
    jsonwebtoken::DecodingKey::from_rsa_components(n, e)
}

/// An RSA decoding key together with the modulus and exponent it was built from.
pub struct RsaKey {
    key: jsonwebtoken::DecodingKey,
    n: Ghost<Seq<char>>,
    e: Ghost<Seq<char>>,
}

impl RsaKey {
    /// The modulus the key was built from.
    pub closed spec fn modulus(&self) -> Seq<char> {
        self.n@
    }

    /// The exponent the key was built from.
    pub closed spec fn exponent(&self) -> Seq<char> {
        self.e@
    }

    /// Builds the RSA decoding key of a modulus and an exponent.
    pub fn from_components(n: &str, e: &str) -> (res: Result<RsaKey, jsonwebtoken::errors::Error>)
        ensures
            res is Ok <==> rsa_components_accepted(n@, e@),
            res matches Ok(k) ==> k.modulus() == n@ && k.exponent() == e@,
    {
        match rsa_decoding_key(n, e) {
            Ok(key) => Ok(RsaKey { key, n: Ghost(n@), e: Ghost(e@) }),
            Err(err) => Err(err),
        }
    }
}

/// `jsonwebtoken::decode` with a `Validation` built from `rules`, reading the claims
/// as JSON; an error comes with whether its kind is `ExpiredSignature`. Whether it
/// succeeds also depends on the clock (expiry is checked against the current time).
/// Stated: every accepted token has the header algorithm of the rules, a signature
/// valid under the key, an `exp`, an accepted issuer, and an accepted audience when
/// that is checked; and with an RSA-family algorithm a token that has all of these is
/// refused only as expired (the library checks nothing else: no `nbf`, no subject,
/// and the audience only when asked). The leeway is bounded so that the library's
/// `now - leeway` cannot underflow.
#[verifier::external_body]
pub(crate) fn decode_claims(
    token: &str,
    key: &RsaKey,
    rules: &JwtRules,
) -> (res: Result<serde_json::Value, (bool, jsonwebtoken::errors::Error)>)
    requires
        rules.leeway <= 60,
    ensures
        res is Ok ==> res->Ok_0 == token_claims(token@),
        res is Ok ==> decoded_header(token@) is Ok && decoded_header(token@)->Ok_0.1
            == rules.algorithm,
        res is Ok ==> token_checks(token@, key.modulus(), key.exponent()).signature_valid,
        res is Ok ==> token_checks(token@, key.modulus(), key.exponent()).has_expiry,
        res is Ok ==> claim_allows(
            token_checks(token@, key.modulus(), key.exponent()).issuer,
            set![rules.issuer@],
        ),
        res is Ok && rules.validate_audience ==> claim_allows(
            token_checks(token@, key.modulus(), key.exponent()).audience,
            audience_set(rules.audiences@),
        ),
        res is Err && is_rsa_algorithm(rules.algorithm) && spec_token_accepted(
            token@,
            key.modulus(),
            key.exponent(),
            rules.algorithm,
            rules.issuer@,
            audience_set(rules.audiences@),
            rules.validate_audience,
        ) ==> res->Err_0.0,
{
    let mut v = Validation::new(match rules.algorithm {
        J::HS256 => A::HS256, J::HS384 => A::HS384, J::HS512 => A::HS512, J::ES256 => A::ES256,
        J::ES384 => A::ES384, J::RS256 => A::RS256, J::RS384 => A::RS384, J::RS512 => A::RS512,
        J::PS256 => A::PS256, J::PS384 => A::PS384, J::PS512 => A::PS512, J::EdDSA => A::EdDSA,
    });
    v.set_issuer(&[&rules.issuer]);
    v.set_audience(&rules.audiences);
    v.validate_aud = rules.validate_audience;
    v.leeway = rules.leeway;
    jsonwebtoken::decode(token, &key.key, &v)
        .map(|d| d.claims)
        .map_err(|e| (*e.kind() == K::ExpiredSignature, e))
}

/// The text of a `jsonwebtoken` error, as its `Display` writes it. Only this is stated
/// of it: it is never "RSA error", since it is either a kind's name (such as
/// `InvalidSignature` or `RsaFailedSigning`) or a prefix such as "JSON error: " or
/// "RSA key invalid: " followed by the detail.
#[verifier::external_body]
pub(crate) fn jwt_error_text(e: &jsonwebtoken::errors::Error) -> (t: String)
    ensures
        t@ != "RSA error"@,
{
    e.to_string()
}

/// The store key under which the key set is cached.
pub const CACHE_KEY: &'static str = "jwks_cache";

/// How long the cached key set is kept, in seconds.
pub const CACHE_TTL: u64 = 86400;

/// Uses a readable cached key set, refuses an unreadable one ("Parse cache error"),
/// and fetches a fresh key set when nothing is cached.
pub fn jwks_after_cache(cached: super::CachedJwks) -> (res: Result<super::JwksPlan, String>)
    ensures
        match cached {
            super::CachedJwks::Read(j) => res == Ok::<super::JwksPlan, String>(super::JwksPlan::Use(j)),
            super::CachedJwks::Missing => res == Ok::<super::JwksPlan, String>(super::JwksPlan::Fetch),
            super::CachedJwks::Unreadable => res matches Err(m) && m@ == "Parse cache error"@,
        },
{
    match cached {
        super::CachedJwks::Read(j) => Ok(super::JwksPlan::Use(j)),
        super::CachedJwks::Missing => Ok(super::JwksPlan::Fetch),
        super::CachedJwks::Unreadable => Err(String::from_str("Parse cache error")),
    }
}

/// The error of this variant for a failed key-set fetch: "Fetch error" when the
/// request failed, "Parse error" when the answer did not read as a key set.
pub fn fetch_failure_text(failure: &super::FetchFailure) -> (m: &'static str)
    ensures
        m@ == match failure {
            super::FetchFailure::Request => "Fetch error"@,
            super::FetchFailure::Parse => "Parse error"@,
        },
{
    match failure {
        super::FetchFailure::Request => "Fetch error",
        super::FetchFailure::Parse => "Parse error",
    }
}

/// The checks a token must pass besides its signature.
pub struct JwtRules {
    /// The one accepted signing algorithm.
    pub algorithm: JwtAlgorithm,
    /// The one accepted issuer.
    pub issuer: String,
    /// The accepted audiences.
    pub audiences: Vec<String>,
    /// Whether the audience claim is checked.
    pub validate_audience: bool,
    /// Clock-skew allowance for expiry, in seconds.
    pub leeway: u64,
}

/// The claims a Keycloak token carries for this service.
pub struct KeycloakClaims {
    pub sub: String,
    pub aud: Option<Vec<String>>,
    pub groups: Option<Vec<String>>,
    pub cost_center: Option<Vec<String>>,
    pub email: Option<String>,
    pub preferred_username: Option<String>,
}

/// One RSA key of a key set.
pub struct Jwk {
    pub kid: String,
    pub n: String,
    pub e: String,
}

/// A key set as the identity provider publishes it.
pub struct Jwks {
    pub keys: Vec<Jwk>,
}

/// `i` is the first position of `keys` whose key id is `kid`.
pub open spec fn first_match(keys: Seq<Jwk>, kid: Seq<char>, i: int) -> bool {
    &&& 0 <= i < keys.len()
    &&& keys[i].kid@ == kid
    &&& forall|j: int| 0 <= j < i ==> (#[trigger] keys[j]).kid@ != kid
}

/// No key of `keys` has the id `kid`.
pub open spec fn no_match(keys: Seq<Jwk>, kid: Seq<char>) -> bool {
    forall|j: int| 0 <= j < keys.len() ==> (#[trigger] keys[j]).kid@ != kid
}

impl Jwk {
    /// The RSA decoding key of this key's components ("RSA error" when they are not
    /// accepted).
    pub fn into_decoding_key(self) -> (res: Result<RsaKey, &'static str>)
        ensures
            res is Ok <==> rsa_components_accepted(self.n@, self.e@),
            res matches Ok(k) ==> k.modulus() == self.n@ && k.exponent() == self.e@,
            res is Err ==> res->Err_0@ == "RSA error"@,
    {
        match RsaKey::from_components(self.n.as_str(), self.e.as_str()) {
            Ok(key) => Ok(key),
            Err(_) => Err("RSA error"),
        }
    }
}

impl Jwks {
    /// The first key whose id is `kid`.
    pub fn find_key(&self, kid: &str) -> (res: Option<&Jwk>)
        ensures
            match res {
                Some(k) => exists|i: int| first_match(self.keys@, kid@, i) && self.keys@[i] == *k,
                None => no_match(self.keys@, kid@),
            },
    {
        let target = String::from_str(kid);
        let n = self.keys.len();
        let mut i: usize = 0;
        while i < n
            invariant
                n == self.keys@.len(),
                i <= n,
                target@ == kid@,
                forall|j: int| 0 <= j < i ==> (#[trigger] self.keys@[j]).kid@ != kid@,
            decreases n - i,
        {
            if self.keys[i].kid == target {
                assert(first_match(self.keys@, kid@, i as int));
                return Some(&self.keys[i]);
            }
            i = i + 1;
        }
        None
    }
}

/// The rules of this variant: RS256 tokens for the `authguard-service` audience,
/// issued by the local `authguard` realm, with the default minute of leeway.
pub fn create_validation() -> (rules: JwtRules)
    ensures
        rules.algorithm == JwtAlgorithm::RS256,
        rules.issuer@ == "http://localhost:8080/realms/authguard"@,
        rules.audiences@.len() == 1,
        rules.audiences@[0]@ == "authguard-service"@,
        rules.validate_audience,
        rules.leeway == 60,
{
    let mut audiences: Vec<String> = Vec::new();
    audiences.push(String::from_str("authguard-service"));
    JwtRules {
        algorithm: JwtAlgorithm::RS256,
        issuer: String::from_str("http://localhost:8080/realms/authguard"),
        audiences,
        validate_audience: true,
        leeway: 60,
    }
}

/// How key selection ends for a token: the error text, or the position of the key
/// that verifies it.
pub open spec fn spec_select_key(token: Seq<char>, keys: Seq<Jwk>) -> Result<int, Seq<char>> {
    match decoded_header_kid(token) {
        None => Err("Invalid header"@),
        Some(None) => Err("Missing KID"@),
        Some(Some(kid)) => if no_match(keys, kid) {
            Err("KID not found"@)
        } else {
            Ok(choose|i: int| first_match(keys, kid, i))
        },
    }
}

/// Whenever some key has the id `kid`, a first such key exists.
pub proof fn lemma_first_match_exists(keys: Seq<Jwk>, kid: Seq<char>)
    requires
        !no_match(keys, kid),
    ensures
        exists|i: int| first_match(keys, kid, i),
{
    let j = choose|j: int| 0 <= j < keys.len() && (#[trigger] keys[j]).kid@ == kid;
    lemma_first_match_below(keys, kid, j);
}

proof fn lemma_first_match_below(keys: Seq<Jwk>, kid: Seq<char>, j: int)
    requires
        0 <= j < keys.len(),
        keys[j].kid@ == kid,
    ensures
        exists|i: int| first_match(keys, kid, i),
    decreases j,
{
    if exists|k: int| 0 <= k < j && (#[trigger] keys[k]).kid@ == kid {
        let k = choose|k: int| 0 <= k < j && (#[trigger] keys[k]).kid@ == kid;
        lemma_first_match_below(keys, kid, k);
    } else {
        assert(first_match(keys, kid, j));
    }
}

pub(crate) proof fn lemma_first_match_unique(keys: Seq<Jwk>, kid: Seq<char>, i: int, j: int)
    requires
        first_match(keys, kid, i),
        first_match(keys, kid, j),
    ensures
        i == j,
{
    if i < j {
        assert(keys[i].kid@ != kid);
    } else if j < i {
        assert(keys[j].kid@ != kid);
    }
}

/// The key id that the token's header names: "Invalid header" when the header cannot
/// be read, "Missing KID" when it names none.
pub fn token_kid(token: &str) -> (res: Result<String, &'static str>)
    ensures
        match decoded_header_kid(token@) {
            None => res matches Err(m) && m@ == "Invalid header"@,
            Some(None) => res matches Err(m) && m@ == "Missing KID"@,
            Some(Some(kid)) => res matches Ok(k) && k@ == kid,
        },
{
    match header_fields(token) {
        Err(_) => Err("Invalid header"),
        Ok((None, _)) => Err("Missing KID"),
        Ok((Some(kid), _)) => Ok(kid),
    }
}

/// Picks the key that must verify `token`: the first key of `jwks` with the id that
/// the token's header names.
pub fn select_key<'a>(token: &str, jwks: &'a Jwks) -> (res: Result<&'a Jwk, &'static str>)
    ensures
        match spec_select_key(token@, jwks.keys@) {
            Ok(i) => res matches Ok(k) && *k == jwks.keys@[i],
            Err(msg) => res matches Err(m) && m@ == msg,
        },
{
    let kid = token_kid(token)?;
    match jwks.find_key(kid.as_str()) {
        None => Err("KID not found"),
        Some(k) => {
            proof {
                let i = choose|i: int| first_match(jwks.keys@, kid@, i) && jwks.keys@[i] == *k;
                let c = choose|i: int| first_match(jwks.keys@, kid@, i);
                lemma_first_match_unique(jwks.keys@, kid@, i, c);
            }
            Ok(k)
        },
    }
}

/// A token that this variant accepts was signed with RS256 by the first key of the key
/// set whose id its header names, carries an expiry, was not issued by anyone but the
/// local realm, and is addressed to `authguard-service`.
pub proof fn lemma_accepted_token_signed_by_named_key(token: Seq<char>, keys: Seq<Jwk>, i: int)
    requires
        spec_select_key(token, keys) == Ok::<int, Seq<char>>(i),
        spec_token_accepted(
            token,
            keys[i].n@,
            keys[i].e@,
            JwtAlgorithm::RS256,
            "http://localhost:8080/realms/authguard"@,
            set!["authguard-service"@],
            true,
        ),
    ensures
        decoded_header(token) is Ok,
        decoded_header(token)->Ok_0.0 is Some,
        first_match(keys, decoded_header(token)->Ok_0.0->Some_0, i),
        decoded_header(token)->Ok_0.1 == JwtAlgorithm::RS256,
        token_checks(token, keys[i].n@, keys[i].e@).signature_valid,
        token_checks(token, keys[i].n@, keys[i].e@).has_expiry,
        claim_allows(
            token_checks(token, keys[i].n@, keys[i].e@).issuer,
            set!["http://localhost:8080/realms/authguard"@],
        ),
        claim_allows(token_checks(token, keys[i].n@, keys[i].e@).audience, set!["authguard-service"@]),
{
    let kid = decoded_header(token)->Ok_0.0->Some_0;
    lemma_first_match_exists(keys, kid);
}

/// Verifies `token` against `jwks` and gives its claims. Key selection fails as
/// `select_key` says; the selected key's components must be accepted ("RSA error"
/// otherwise); then the token is decoded with that key under `create_validation`'s
/// rules, and a failure there gives the error's own text ("ExpiredSignature" for an
/// expired token). A token that has everything an accepted token has (below) is refused
/// only as expired, whatever else its payload holds. The claims given back are
/// the token's own (`token_claims`). An accepted token is an
/// RS256 token, signed with the selected key, carrying an expiry, issued by the local
/// realm and addressed to `authguard-service`.
pub fn verify(token: &str, jwks: &Jwks) -> (res: Result<serde_json::Value, String>)
    ensures
        match spec_select_key(token@, jwks.keys@) {
            Err(msg) => res matches Err(m) && m@ == msg,
            Ok(i) => {
                &&& !rsa_components_accepted(jwks.keys@[i].n@, jwks.keys@[i].e@) ==> (res matches Err(
                    m,
                ) && m@ == "RSA error"@)
                &&& rsa_components_accepted(jwks.keys@[i].n@, jwks.keys@[i].e@) ==> (res is Ok || (
                res matches Err(m) && m@ != "RSA error"@))
                &&& res matches Ok(c) ==> c == token_claims(token@)
                &&& rsa_components_accepted(jwks.keys@[i].n@, jwks.keys@[i].e@) && spec_token_accepted(
                    token@,
                    jwks.keys@[i].n@,
                    jwks.keys@[i].e@,
                    JwtAlgorithm::RS256,
                    "http://localhost:8080/realms/authguard"@,
                    set!["authguard-service"@],
                    true,
                ) ==> (res is Ok || (res matches Err(m) && m@ == "ExpiredSignature"@))
                &&& res is Ok ==> spec_token_accepted(
                    token@,
                    jwks.keys@[i].n@,
                    jwks.keys@[i].e@,
                    JwtAlgorithm::RS256,
                    "http://localhost:8080/realms/authguard"@,
                    set!["authguard-service"@],
                    true,
                )
            },
        },
{
    let jwk = match select_key(token, jwks) {
        Ok(k) => k,
        Err(msg) => return Err(String::from_str(msg)),
    };
    let key = match RsaKey::from_components(jwk.n.as_str(), jwk.e.as_str()) {
        Ok(key) => key,
        Err(_) => return Err(String::from_str("RSA error")),
    };
    let validation = create_validation();
    let res = decode_claims(token, &key, &validation);
    proof {
        let views = validation.audiences@.map_values(|a: String| a@);
        assert(views =~= seq!["authguard-service"@]);
        assert forall|x: Seq<char>| audience_set(validation.audiences@).contains(x) <==> set![
            "authguard-service"@,
        ].contains(x) by {
            if x == "authguard-service"@ {
                assert(views[0] == x);
            }
        }
        assert(audience_set(validation.audiences@) =~= set!["authguard-service"@]);
    }
    match res {
        Ok(claims) => Ok(claims),
        Err((true, _)) => {
            let text = String::from_str("ExpiredSignature");
            proof {
                reveal_strlit("ExpiredSignature");
                reveal_strlit("RSA error");
                assert(text@.len() != "RSA error"@.len());
            }
            Err(text)
        },
        Err((false, e)) => Err(jwt_error_text(&e)),
    }
}

} // verus!
