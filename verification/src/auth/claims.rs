//! The claims of a Keycloak token as the proxy reads them.
use vstd::prelude::*;

verus! {

/// The claims of a Keycloak token: subject, group paths and profile data.
pub struct KeycloakClaims {
    pub sub: String,
    pub groups: Vec<String>,
    pub cost_center: Option<Vec<String>>,
    pub email: Option<String>,
    pub preferred_username: Option<String>,
}

} // verus!
