use authguard::observability::{metrics_reply, MetricsReply};
use authguard::auth::claims::KeycloakClaims;
use authguard::proxy::handler::{admin_allowed, contains_group, status_label};
use authguard::proxy::proxy::{bad_gateway, upstream_uri};
use authguard::proxy::forward_uri;

fn claims(groups: &[&str]) -> KeycloakClaims {
    KeycloakClaims {
        sub: "user-1".to_string(),
        groups: groups.iter().map(|g| g.to_string()).collect(),
        cost_center: None,
        email: Some("ana@example.com".to_string()),
        preferred_username: None,
    }
}

#[test]
fn admin_paths_need_infrastructure_group() {
    let member = claims(&["/TI", "/TI/Infraestrutura"]);
    let outsider = claims(&["/TI", "/Finance"]);
    assert!(admin_allowed(Some(&member), "/admin"));
    assert!(admin_allowed(Some(&member), "/admin/users"));
    assert!(!admin_allowed(Some(&outsider), "/admin"));
    assert!(!admin_allowed(Some(&outsider), "/administration"));
    assert!(!admin_allowed(Some(&claims(&[])), "/admin/x"));
}

#[test]
fn other_paths_are_open() {
    let outsider = claims(&["/Finance"]);
    assert!(admin_allowed(Some(&outsider), "/api/items"));
    assert!(admin_allowed(Some(&outsider), "/"));
    assert!(admin_allowed(Some(&outsider), "/x/admin"));
    assert!(admin_allowed(None, "/api/items"));
}

#[test]
fn admin_paths_refuse_requests_without_claims() {
    assert!(!admin_allowed(None, "/admin"));
    assert!(!admin_allowed(None, "/admin/users"));
}

#[test]
fn group_membership_is_exact() {
    let groups = vec!["/TI/Infraestrutura/Sub".to_string(), "/ti/infraestrutura".to_string()];
    assert!(!contains_group(&groups, "/TI/Infraestrutura"));
    assert!(contains_group(&groups, "/ti/infraestrutura"));
}

#[test]
fn status_labels() {
    assert_eq!(status_label(200), "200");
    assert_eq!(status_label(502), "502");
    assert_eq!(status_label(0), "0");
}

#[test]
fn upstream_addresses() {
    assert_eq!(forward_uri("http://svc:8080", "/api/x?y=1"), "http://svc:8080/api/x?y=1");
    assert_eq!(upstream_uri("http://svc:8080", Some("/api?q=2")), "http://svc:8080/api?q=2");
    assert_eq!(upstream_uri("http://svc:8080", None), "http://svc:8080");
}

#[test]
fn metrics_replies() {
    let ok = metrics_reply::<()>(Ok(b"# metrics".to_vec()));
    assert_eq!(ok.status_code(), 200);
    assert!(matches!(ok, MetricsReply::Encoded(ref b) if b == b"# metrics"));
    let failed = metrics_reply::<&str>(Err("boom"));
    assert_eq!(failed.status_code(), 500);
    assert!(matches!(failed, MetricsReply::Failed(ref t) if t == "Failed to encode metrics"));
}

#[test]
fn failed_forwarding_is_a_bad_gateway() {
    assert_eq!(bad_gateway(), (502, "Bad Gateway"));
}
