use authguard::config::{load_config_from, AppConfig, ConfigVars};
use authguard::handler::{
    callback_start, session_cookie, session_cookies, token_request_form, CallbackFailure,
    ACCESS_TOKEN_MAX_AGE, REFRESH_TOKEN_MAX_AGE,
};
use authguard::middleware::Rejection;

fn s(v: &str) -> Option<String> {
    Some(v.to_string())
}

fn all_vars() -> ConfigVars {
    ConfigVars {
        port: None,
        redis_url: s("redis://127.0.0.1/"),
        jwks_url: s("http://kc/realms/r/protocol/openid-connect/certs"),
        jwt_issuer: s("http://kc/realms/r"),
        keycloak_url: s("http://kc"),
        realm: s("r"),
        client_id: s("gateway"),
        client_secret: s("s3cr3t-value"),
        redirect_uri: s("http://localhost/callback"),
    }
}

fn config() -> AppConfig {
    load_config_from(all_vars()).ok().unwrap()
}

#[test]
fn port_defaults_to_3000() {
    let c = config();
    assert_eq!(c.port, "3000");
    assert_eq!(c.realm, "r");
    let mut v = all_vars();
    v.port = s("8081");
    assert_eq!(load_config_from(v).ok().unwrap().port, "8081");
}

#[test]
fn missing_variables_are_named_in_order() {
    let mut v = all_vars();
    v.realm = None;
    v.client_secret = None;
    assert_eq!(load_config_from(v).err().unwrap(), "REALM must be set");
    let mut v = all_vars();
    v.redis_url = None;
    v.redirect_uri = None;
    assert_eq!(load_config_from(v).err().unwrap(), "REDIS_URL must be set");
    let mut v = all_vars();
    v.redirect_uri = None;
    assert_eq!(load_config_from(v).err().unwrap(), "REDIRECT_URI must be set");
}

#[test]
fn token_endpoint_of_realm() {
    assert_eq!(config().token_endpoint(), "http://kc/realms/r/protocol/openid-connect/token");
}

#[test]
fn token_request_form_fields() {
    let form = token_request_form(&config(), "abc123");
    let pairs: Vec<(&str, &str)> = form.iter().map(|(k, v)| (k.as_str(), v.as_str())).collect();
    assert_eq!(
        pairs,
        vec![
            ("client_id", "gateway"),
            ("client_secret", "s3cr3t-value"),
            ("grant_type", "authorization_code"),
            ("code", "abc123"),
            ("redirect_uri", "http://localhost/callback"),
        ]
    );
}

#[test]
fn callback_needs_code() {
    let failure = callback_start(None, &config()).err().unwrap();
    assert!(matches!(failure, CallbackFailure::MissingCode));
    assert_eq!(failure.rejection(), Rejection::BadRequest);
    assert_eq!(failure.message(), "Missing code");
    let form = callback_start(Some("c0de"), &config()).ok().unwrap();
    assert_eq!(form[3].1, "c0de");
}

#[test]
fn upstream_failures_are_502() {
    assert_eq!(CallbackFailure::TokenRequestFailed.rejection(), Rejection::BadGateway);
    assert_eq!(CallbackFailure::TokenRequestFailed.message(), "Token failed");
    assert_eq!(CallbackFailure::TokenResponseUnreadable.rejection(), Rejection::BadGateway);
    assert_eq!(CallbackFailure::TokenResponseUnreadable.message(), "Parse failed");
}

#[test]
fn cookie_text() {
    assert_eq!(
        session_cookie("access_token", "tok", 3600),
        "access_token=tok; HttpOnly; Path=/; Max-Age=3600"
    );
    assert_eq!(session_cookie("a", "", 0), "a=; HttpOnly; Path=/; Max-Age=0");
}

#[test]
fn login_sets_both_cookies() {
    assert_eq!(ACCESS_TOKEN_MAX_AGE, 3600);
    assert_eq!(REFRESH_TOKEN_MAX_AGE, 86400);
    let c = session_cookies(Some("acc"), Some("ref"));
    assert_eq!(c[0], "access_token=acc; HttpOnly; Path=/; Max-Age=3600");
    assert_eq!(c[1], "refresh_token=ref; HttpOnly; Path=/; Max-Age=86400");
    let c = session_cookies(None, Some("ref"));
    assert_eq!(c[0], "access_token=; HttpOnly; Path=/; Max-Age=3600");
}

#[test]
fn callback_form_is_the_full_exchange() {
    let form = callback_start(Some("c0de"), &config()).ok().unwrap();
    assert_eq!(form, token_request_form(&config(), "c0de"));
    assert_eq!(form[1], ("client_secret".to_string(), "s3cr3t-value".to_string()));
    assert_eq!(form[2], ("grant_type".to_string(), "authorization_code".to_string()));
}
