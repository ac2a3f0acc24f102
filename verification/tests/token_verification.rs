use authguard::auth::jwt::{self, create_validation, select_key, Jwk, JwtAlgorithm, Jwks};
use authguard::auth::{
    get_jwk, jwks_after_cache, validation_rules, verify, CachedJwks, FetchFailure, JwksPlan,
    VerifyError,
    CACHE_TTL, JWKS_CACHE_KEY, TOKEN_LEEWAY,
};
use jsonwebtoken::{encode, Algorithm, EncodingKey, Header};
use num_bigint::BigUint;
use serde_json::Value;

const EXPONENT: &str = "AQAB";

/// A 2048-bit RSA key for signing test tokens, derived at run time: each prime is
/// the first suitable one after a candidate drawn from a fixed xorshift stream.
struct TestKey {
    der: Vec<u8>,
    modulus: String,
}

fn xorshift_block(state: &mut u64) -> Vec<u8> {
    let mut out = Vec::new();
    for _ in 0..16 {
        *state ^= *state << 13;
        *state ^= *state >> 7;
        *state ^= *state << 17;
        out.extend_from_slice(&state.to_be_bytes());
    }
    out
}

fn prime_after(block: Vec<u8>, steps: u32) -> BigUint {
    let mut b = block;
    b[0] |= 0xC0;
    b[127] |= 1;
    BigUint::from_bytes_be(&b) + BigUint::from(2u32 * steps)
}

fn der_len(len: usize) -> Vec<u8> {
    if len < 0x80 {
        vec![len as u8]
    } else if len < 0x100 {
        vec![0x81, len as u8]
    } else {
        vec![0x82, (len >> 8) as u8, len as u8]
    }
}

fn der_uint(x: &BigUint) -> Vec<u8> {
    let mut body = x.to_bytes_be();
    if body[0] & 0x80 != 0 {
        body.insert(0, 0);
    }
    let mut out = vec![0x02];
    out.extend(der_len(body.len()));
    out.extend(body);
    out
}

const ALPHABET: &[u8] = b"ABCDEFGHIJKLMNOPQRSTUVWXYZabcdefghijklmnopqrstuvwxyz0123456789-_";

fn base64url(bytes: &[u8]) -> String {
    let mut out = String::new();
    for chunk in bytes.chunks(3) {
        let v = (chunk[0] as u32) << 16
            | (*chunk.get(1).unwrap_or(&0) as u32) << 8
            | *chunk.get(2).unwrap_or(&0) as u32;
        let n = chunk.len() + 1;
        for i in 0..n {
            out.push(ALPHABET[((v >> (18 - 6 * i)) & 63) as usize] as char);
        }
    }
    out
}

fn test_key() -> TestKey {
    {
        let mut state: u64 = 0x9E3779B97F4A7C15;
        let p = prime_after(xorshift_block(&mut state), 207);
        let q = prime_after(xorshift_block(&mut state), 677);
        let one = BigUint::from(1u32);
        let e = BigUint::from(65537u32);
        let n = &p * &q;
        let phi = (&p - &one) * (&q - &one);
        let d = e.modinv(&phi).unwrap();
        let dp = &d % (&p - &one);
        let dq = &d % (&q - &one);
        let qinv = q.modinv(&p).unwrap();
        let mut body = vec![0x02, 0x01, 0x00];
        for x in [&n, &e, &d, &p, &q, &dp, &dq, &qinv] {
            body.extend(der_uint(x));
        }
        let mut der = vec![0x30];
        der.extend(der_len(body.len()));
        der.extend(body);
        TestKey { der, modulus: base64url(&n.to_bytes_be()) }
    }
}

fn modulus() -> String {
    test_key().modulus
}

const ISSUER: &str = "http://localhost:8080/realms/authguard";

fn key(kid: &str, n: &str, e: &str) -> Jwk {
    Jwk { kid: kid.to_string(), n: n.to_string(), e: e.to_string() }
}

fn key_set() -> Jwks {
    Jwks {
        keys: vec![
            key("other", "AAAA", "AQAB"),
            key("main", &modulus(), EXPONENT),
            key("main", "second-with-same-id", "AQAB"),
        ],
    }
}

fn token(kid: Option<&str>, claims: Value) -> String {
    let mut header = Header::new(Algorithm::RS256);
    header.kid = kid.map(|k| k.to_string());
    let key = EncodingKey::from_rsa_der(&test_key().der);
    encode(&header, &claims, &key).unwrap()
}

fn claims(iss: &str, aud: Option<&str>, exp: u64) -> Value {
    let mut m = serde_json::Map::new();
    m.insert("sub".to_string(), Value::from("user-1"));
    m.insert("iss".to_string(), Value::from(iss));
    m.insert("exp".to_string(), Value::from(exp));
    m.insert("groups".to_string(), Value::from(vec!["/TI/Infraestrutura"]));
    if let Some(a) = aud {
        m.insert("aud".to_string(), Value::from(a));
    }
    Value::Object(m)
}

const FAR_FUTURE: u64 = 4102444800;

#[test]
fn find_key_gives_first_match() {
    let jwks = key_set();
    let k = jwks.find_key("main").unwrap();
    assert_eq!(k.n, modulus());
    assert_eq!(jwks.find_key("other").unwrap().n, "AAAA");
    assert!(jwks.find_key("missing").is_none());
    assert!(Jwks { keys: vec![] }.find_key("main").is_none());
}

#[test]
fn get_jwk_takes_first_match_or_names_missing_kid() {
    let k = get_jwk(key_set(), "main").unwrap();
    assert_eq!(k.n, modulus());
    let err = get_jwk(key_set(), "nope").err().unwrap();
    assert_eq!(err, "Key ID nope not found in JWKS");
}

#[test]
fn decoding_key_needs_base64url_components() {
    assert!(key("k", &modulus(), EXPONENT).into_decoding_key().is_ok());
    assert_eq!(key("k", "not base64!", EXPONENT).into_decoding_key().err(), Some("RSA error"));
    assert_eq!(key("k", &modulus(), "+/=").into_decoding_key().err(), Some("RSA error"));
}

#[test]
fn rules_of_each_variant() {
    let r = create_validation();
    assert_eq!(r.algorithm, JwtAlgorithm::RS256);
    assert_eq!(r.issuer, ISSUER);
    assert_eq!(r.audiences, vec!["authguard-service".to_string()]);
    assert!(r.validate_audience);
    assert_eq!(r.leeway, 60);
    let r = validation_rules("https://idp.example/realms/x");
    assert_eq!(r.algorithm, JwtAlgorithm::RS256);
    assert_eq!(r.issuer, "https://idp.example/realms/x");
    assert!(r.audiences.is_empty());
    assert!(!r.validate_audience);
    assert_eq!(r.leeway, TOKEN_LEEWAY);
    assert_eq!(TOKEN_LEEWAY, 60);
    assert_eq!(JWKS_CACHE_KEY, "jwks");
    assert_eq!(CACHE_TTL, 86400);
    assert_eq!(jwt::CACHE_KEY, "jwks_cache");
}

#[test]
fn verify_accepts_a_valid_token() {
    let t = token(Some("main"), claims(ISSUER, None, FAR_FUTURE));
    let v = verify(&t, &key_set(), ISSUER).ok().unwrap();
    assert_eq!(v["sub"], "user-1");
    assert_eq!(v["exp"], FAR_FUTURE);
}

#[test]
fn verify_errors_before_decoding() {
    let jwks = key_set();
    assert!(matches!(verify("garbage", &jwks, ISSUER), Err(VerifyError::InvalidHeader(_))));
    let t = token(None, claims(ISSUER, None, FAR_FUTURE));
    assert!(matches!(verify(&t, &jwks, ISSUER), Err(VerifyError::MissingKid)));
    let t = token(Some("ghost"), claims(ISSUER, None, FAR_FUTURE));
    match verify(&t, &jwks, ISSUER) {
        Err(VerifyError::KidNotFound(kid)) => assert_eq!(kid, "ghost"),
        _ => panic!("expected KidNotFound"),
    }
    let bad = Jwks { keys: vec![key("main", "###", "AQAB")] };
    let t = token(Some("main"), claims(ISSUER, None, FAR_FUTURE));
    assert!(matches!(verify(&t, &bad, ISSUER), Err(VerifyError::InvalidKey)));
}

#[test]
fn verify_refuses_failed_checks() {
    let jwks = key_set();
    let expired = token(Some("main"), claims(ISSUER, None, 1000));
    assert!(matches!(verify(&expired, &jwks, ISSUER), Err(VerifyError::ValidationFailed(_))));
    let foreign = token(Some("main"), claims("https://evil.example", None, FAR_FUTURE));
    assert!(matches!(verify(&foreign, &jwks, ISSUER), Err(VerifyError::ValidationFailed(_))));
    let wrong_key = Jwks { keys: vec![key("main", "AQAB", "AQAB")] };
    let t = token(Some("main"), claims(ISSUER, None, FAR_FUTURE));
    assert!(matches!(verify(&t, &wrong_key, ISSUER), Err(VerifyError::ValidationFailed(_))));
}

#[test]
fn error_messages() {
    assert_eq!(VerifyError::MissingKid.message(), "Missing key ID (kid) in token");
    assert_eq!(VerifyError::KidNotFound("k1".to_string()).message(), "Key ID k1 not found in JWKS");
    assert_eq!(VerifyError::InvalidKey.message(), "Invalid RSA key components");
    assert_eq!(VerifyError::InvalidHeader("x".to_string()).message(), "Invalid token header: x");
    assert_eq!(
        VerifyError::ValidationFailed("ExpiredSignature".to_string()).message(),
        "JWT validation failed: ExpiredSignature"
    );
}

#[test]
fn audience_variant_selects_and_verifies() {
    let jwks = key_set();
    assert_eq!(select_key("garbage", &jwks).err(), Some("Invalid header"));
    let t = token(None, claims(ISSUER, None, FAR_FUTURE));
    assert_eq!(select_key(&t, &jwks).err(), Some("Missing KID"));
    let t = token(Some("ghost"), claims(ISSUER, None, FAR_FUTURE));
    assert_eq!(select_key(&t, &jwks).err(), Some("KID not found"));
    assert_eq!(jwt::verify(&t, &jwks).err().unwrap(), "KID not found");

    let good = token(Some("main"), claims(ISSUER, Some("authguard-service"), FAR_FUTURE));
    assert_eq!(select_key(&good, &jwks).ok().unwrap().n, modulus());
    let v = jwt::verify(&good, &jwks).ok().unwrap();
    assert_eq!(v["iss"], ISSUER);

    let other_aud = token(Some("main"), claims(ISSUER, Some("someone-else"), FAR_FUTURE));
    assert!(jwt::verify(&other_aud, &jwks).is_err());
    let bad = Jwks { keys: vec![key("main", "###", "AQAB")] };
    assert_eq!(jwt::verify(&good, &bad).err().unwrap(), "RSA error");
}

#[test]
fn key_set_cache_decisions() {
    assert!(matches!(jwks_after_cache(CachedJwks::Missing), JwksPlan::Fetch));
    assert!(matches!(jwks_after_cache(CachedJwks::Unreadable), JwksPlan::Fetch));
    match jwks_after_cache(CachedJwks::Read(key_set())) {
        JwksPlan::Use(j) => assert_eq!(j.keys.len(), 3),
        JwksPlan::Fetch => panic!("expected the cached key set"),
    }
    assert!(matches!(jwt::jwks_after_cache(CachedJwks::Missing), Ok(JwksPlan::Fetch)));
    assert_eq!(jwt::jwks_after_cache(CachedJwks::Unreadable).err().unwrap(), "Parse cache error");
    assert!(matches!(jwt::jwks_after_cache(CachedJwks::Read(key_set())), Ok(JwksPlan::Use(_))));
}

#[test]
fn key_id_of_token_header() {
    let t = token(Some("main"), claims(ISSUER, None, FAR_FUTURE));
    assert_eq!(authguard::auth::token_kid(&t).ok().unwrap(), "main");
    let t = token(None, claims(ISSUER, None, FAR_FUTURE));
    assert!(matches!(authguard::auth::token_kid(&t), Err(VerifyError::MissingKid)));
    assert!(matches!(authguard::auth::token_kid("a.b"), Err(VerifyError::InvalidHeader(_))));
}

fn hs256_token(kid: &str, claims: Value) -> String {
    let mut header = Header::new(Algorithm::HS256);
    header.kid = Some(kid.to_string());
    encode(&header, &claims, &EncodingKey::from_secret(b"shared")).unwrap()
}

#[test]
fn tokens_of_other_algorithms_are_refused() {
    let jwks = key_set();
    let t = hs256_token("main", claims(ISSUER, Some("authguard-service"), FAR_FUTURE));
    assert!(matches!(verify(&t, &jwks, ISSUER), Err(VerifyError::ValidationFailed(_))));
    assert!(jwt::verify(&t, &jwks).is_err());
}

#[test]
fn tokens_without_expiry_are_refused() {
    let mut m = serde_json::Map::new();
    m.insert("sub".to_string(), Value::from("user-1"));
    m.insert("iss".to_string(), Value::from(ISSUER));
    let t = token(Some("main"), Value::Object(m));
    assert!(matches!(verify(&t, &key_set(), ISSUER), Err(VerifyError::ValidationFailed(_))));
}

#[test]
fn issuer_variant_checks_its_own_issuer() {
    let t = token(Some("main"), claims("https://idp.example/realms/x", None, FAR_FUTURE));
    assert!(verify(&t, &key_set(), "https://idp.example/realms/x").is_ok());
    assert!(verify(&t, &key_set(), ISSUER).is_err());
}

#[test]
fn audience_variant_reads_header_first() {
    assert_eq!(jwt::token_kid("garbage").err(), Some("Invalid header"));
    let t = token(None, claims(ISSUER, None, FAR_FUTURE));
    assert_eq!(jwt::token_kid(&t).err(), Some("Missing KID"));
    let t = token(Some("main"), claims(ISSUER, None, FAR_FUTURE));
    assert_eq!(jwt::token_kid(&t).ok().unwrap(), "main");
}

#[test]
fn verified_claims_are_the_tokens_own() {
    let mut c = claims(ISSUER, Some("authguard-service"), FAR_FUTURE);
    c["sub"] = Value::from("user-2");
    c["email"] = Value::from("two@example.org");
    let t = token(Some("main"), c.clone());
    assert_eq!(verify(&t, &key_set(), ISSUER).ok().unwrap(), c);
    assert_eq!(jwt::verify(&t, &key_set()).ok().unwrap(), c);
}

#[test]
fn header_error_carries_the_decoders_text() {
    let expected = jsonwebtoken::decode_header("garbage").unwrap_err().to_string();
    match verify("garbage", &key_set(), ISSUER) {
        Err(VerifyError::InvalidHeader(d)) => assert_eq!(d, expected),
        _ => panic!("expected InvalidHeader"),
    }
    match authguard::auth::token_kid("garbage") {
        Err(e) => assert_eq!(e.message(), format!("Invalid token header: {expected}")),
        Ok(_) => panic!("expected an error"),
    }
}

#[test]
fn audience_variant_gives_the_decoders_error_for_accepted_keys() {
    let other_aud = token(Some("main"), claims(ISSUER, Some("someone-else"), FAR_FUTURE));
    assert_eq!(jwt::verify(&other_aud, &key_set()).err().unwrap(), "InvalidAudience");
    let expired = token(Some("main"), claims(ISSUER, Some("authguard-service"), 1000));
    assert_eq!(jwt::verify(&expired, &key_set()).err().unwrap(), "ExpiredSignature");
}

#[test]
fn key_set_fetch_failure_texts() {
    assert_eq!(FetchFailure::Request.message("timed out"), "JWKS fetch failed: timed out");
    assert_eq!(FetchFailure::Parse.message("bad json"), "JWKS parse failed: bad json");
    assert_eq!(jwt::fetch_failure_text(&FetchFailure::Request), "Fetch error");
    assert_eq!(jwt::fetch_failure_text(&FetchFailure::Parse), "Parse error");
}

#[test]
fn key_components_follow_unpadded_base64url() {
    let m = modulus();
    assert!(key("k", &m, "AQ").into_decoding_key().is_ok());
    assert_eq!(key("k", &m, "AR").into_decoding_key().err(), Some("RSA error"));
    assert!(key("k", &m, "AAA").into_decoding_key().is_ok());
    assert_eq!(key("k", &m, "AAB").into_decoding_key().err(), Some("RSA error"));
    assert_eq!(key("k", &m, "AAAAA").into_decoding_key().err(), Some("RSA error"));
    assert_eq!(key("k", &m, "AQ==").into_decoding_key().err(), Some("RSA error"));
    assert!(key("k", "-_09az", "AQAB").into_decoding_key().is_err());
    assert!(key("k", "-_09aw", "AQAB").into_decoding_key().is_ok());
    assert!(key("k", "", "").into_decoding_key().is_ok());
}
