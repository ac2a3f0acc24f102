use authguard::middleware::security::extract_ip;
use authguard::utils::{extract_token, header_to_str, starts_with, strip_prefix};

#[test]
fn header_text_needs_visible_ascii() {
    assert_eq!(header_to_str(b"hello world"), Some("hello world"));
    assert_eq!(header_to_str(b"a\tb"), Some("a\tb"));
    assert_eq!(header_to_str(b""), Some(""));
    assert_eq!(header_to_str(b"caf\xc3\xa9"), None);
    assert_eq!(header_to_str(b"a\x7fb"), None);
    assert_eq!(header_to_str(b"a\x01b"), None);
}

#[test]
fn bearer_token_is_taken_from_authorization() {
    assert_eq!(extract_token(Some(b"Bearer abc.def.ghi")), Some("abc.def.ghi"));
    assert_eq!(extract_token(Some(b"Bearer ")), Some(""));
    assert_eq!(extract_token(Some(b"Bearer  x")), Some(" x"));
}

#[test]
fn bearer_token_absent_or_malformed() {
    assert_eq!(extract_token(None), None);
    assert_eq!(extract_token(Some(b"Basic dXNlcjpwYXNz")), None);
    assert_eq!(extract_token(Some(b"bearer abc")), None);
    assert_eq!(extract_token(Some(b"Bearer")), None);
    assert_eq!(extract_token(Some(b"Bearer t\xffk")), None);
}

#[test]
fn prefix_matching() {
    assert!(starts_with("/admin/users", "/admin"));
    assert!(starts_with("/admin", "/admin"));
    assert!(!starts_with("/adm", "/admin"));
    assert!(!starts_with("/api/admin", "/admin"));
    assert!(starts_with("anything", ""));
    assert_eq!(strip_prefix("Bearer tok", "Bearer "), Some("tok"));
    assert_eq!(strip_prefix("Token tok", "Bearer "), None);
    assert_eq!(strip_prefix("héllo", "hé"), Some("llo"));
}

#[test]
fn client_address_from_forwarded_header() {
    assert_eq!(extract_ip(Some(b"203.0.113.9")), "203.0.113.9");
    assert_eq!(extract_ip(Some(b"10.0.0.1, 10.0.0.2")), "10.0.0.1, 10.0.0.2");
    assert_eq!(extract_ip(None), "unknown");
    assert_eq!(extract_ip(Some(b"\xff")), "unknown");
}
