use authguard::auth::{Claims, VerifyError};
use authguard::middleware::security::{authenticate, is_blocked, security_first_step, SecurityStep};
use authguard::middleware::{after_verification, auth_after_rate_check, AuthStep, Rejection};

fn claims() -> Claims {
    Claims {
        sub: "user-1".to_string(),
        groups: Some(vec!["/TI".to_string()]),
        email: None,
        preferred_username: Some("ana".to_string()),
        exp: 4102444800,
    }
}

#[test]
fn status_codes() {
    assert_eq!(Rejection::BadRequest.status_code(), 400);
    assert_eq!(Rejection::Unauthorized.status_code(), 401);
    assert_eq!(Rejection::Forbidden.status_code(), 403);
    assert_eq!(Rejection::TooManyRequests.status_code(), 429);
    assert_eq!(Rejection::BadGateway.status_code(), 502);
}

#[test]
fn over_budget_is_429_whatever_is_sent() {
    assert!(matches!(
        auth_after_rate_check(false, Some(b"Bearer tok")),
        AuthStep::Reject(Rejection::TooManyRequests)
    ));
    assert!(matches!(auth_after_rate_check(false, None), AuthStep::Reject(Rejection::TooManyRequests)));
}

#[test]
fn missing_token_is_401() {
    assert!(matches!(auth_after_rate_check(true, None), AuthStep::Reject(Rejection::Unauthorized)));
    assert!(matches!(
        auth_after_rate_check(true, Some(b"Basic abc")),
        AuthStep::Reject(Rejection::Unauthorized)
    ));
}

#[test]
fn token_goes_to_verification() {
    match auth_after_rate_check(true, Some(b"Bearer a.b.c")) {
        AuthStep::Verify(t) => assert_eq!(t, "a.b.c"),
        AuthStep::Reject(r) => panic!("rejected with {:?}", r),
    }
}

#[test]
fn verification_outcome() {
    let ok = after_verification::<Claims, VerifyError>(Ok(claims()));
    assert_eq!(ok.ok().unwrap().sub, "user-1");
    let refused = after_verification::<Claims, VerifyError>(Err(VerifyError::MissingKid));
    assert_eq!(refused.err(), Some(Rejection::Unauthorized));
}

#[test]
fn blocked_addresses() {
    let blocked = vec!["10.0.0.1".to_string(), "10.0.0.2".to_string()];
    assert!(is_blocked(&blocked, "10.0.0.2"));
    assert!(!is_blocked(&blocked, "10.0.0.3"));
    assert!(!is_blocked(&vec![], "10.0.0.1"));
}

#[test]
fn security_layer_order() {
    let blocked = vec!["10.0.0.1".to_string()];
    assert!(matches!(
        security_first_step("10.0.0.1", &blocked, true, Some(b"Bearer tok")),
        SecurityStep::Reject(Rejection::Forbidden)
    ));
    assert!(matches!(
        security_first_step("10.0.0.1", &blocked, false, None),
        SecurityStep::Reject(Rejection::Forbidden)
    ));
    assert!(matches!(
        security_first_step("10.0.0.9", &blocked, true, None),
        SecurityStep::Reject(Rejection::Unauthorized)
    ));
    match security_first_step("10.0.0.9", &blocked, true, Some(b"Bearer tok")) {
        SecurityStep::Authenticate(t) => assert_eq!(t, "tok"),
        _ => panic!("expected authentication"),
    }
    assert!(matches!(security_first_step("10.0.0.9", &blocked, false, None), SecurityStep::CheckRate));
}

#[test]
fn authenticate_reads_bearer_token() {
    assert_eq!(authenticate(Some(b"Bearer xyz")), Ok("xyz"));
    assert_eq!(authenticate(Some(b"xyz")), Err(Rejection::Unauthorized));
    assert_eq!(authenticate(None), Err(Rejection::Unauthorized));
}
