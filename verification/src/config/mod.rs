//! The service configuration and how it is formed from the process environment: the
//! listening port defaults to 3000, and every other setting must be present.
use vstd::prelude::*;

verus! {

/// The service configuration.
pub struct AppConfig {
    pub port: String,
    pub redis_url: String,
    pub jwks_url: String,
    pub jwt_issuer: String,
    pub keycloak_url: String,
    pub realm: String,
    pub client_id: String,
    pub client_secret: String,
    pub redirect_uri: String,
}

/// The values of the configuration variables as the environment gives them
/// (`None` for an unset variable).
pub struct ConfigVars {
    pub port: Option<String>,
    pub redis_url: Option<String>,
    pub jwks_url: Option<String>,
    pub jwt_issuer: Option<String>,
    pub keycloak_url: Option<String>,
    pub realm: Option<String>,
    pub client_id: Option<String>,
    pub client_secret: Option<String>,
    pub redirect_uri: Option<String>,
}

/// The message for a required variable that is not set.
pub open spec fn missing_message(name: Seq<char>) -> Seq<char> {
    name + " must be set"@
}

/// The first required variable that is unset, in the order `REDIS_URL`, `JWKS_URL`,
/// `JWT_ISSUER`, `KEYCLOAK_URL`, `REALM`, `CLIENT_ID`, `CLIENT_SECRET`, `REDIRECT_URI`.
pub open spec fn first_missing(v: ConfigVars) -> Option<Seq<char>> {
    if v.redis_url is None {
        Some("REDIS_URL"@)
    } else if v.jwks_url is None {
        Some("JWKS_URL"@)
    } else if v.jwt_issuer is None {
        Some("JWT_ISSUER"@)
    } else if v.keycloak_url is None {
        Some("KEYCLOAK_URL"@)
    } else if v.realm is None {
        Some("REALM"@)
    } else if v.client_id is None {
        Some("CLIENT_ID"@)
    } else if v.client_secret is None {
        Some("CLIENT_SECRET"@)
    } else if v.redirect_uri is None {
        Some("REDIRECT_URI"@)
    } else {
        None
    }
}

fn required(value: Option<String>, name: &str) -> (res: Result<String, String>)
    ensures
        match value {
            Some(s) => res == Ok::<String, String>(s),
            None => res matches Err(m) && m@ == missing_message(name@),
        },
{
    match value {
        Some(s) => Ok(s),
        None => Err(String::from_str(name).concat(" must be set")),
    }
}

/// Forms the configuration from the variables' values: the port is `3000` when
/// unset; the first unset required variable gives the error `<NAME> must be set`.
pub fn load_config_from(vars: ConfigVars) -> (res: Result<AppConfig, String>)
    ensures
        match first_missing(vars) {
            Some(name) => res matches Err(m) && m@ == missing_message(name),
            None => res matches Ok(c) && c.port@ == (match vars.port {
                Some(p) => p@,
                None => "3000"@,
            }) && Some(c.redis_url) == vars.redis_url && Some(c.jwks_url) == vars.jwks_url
                && Some(c.jwt_issuer) == vars.jwt_issuer && Some(c.keycloak_url)
                == vars.keycloak_url && Some(c.realm) == vars.realm && Some(c.client_id)
                == vars.client_id && Some(c.client_secret) == vars.client_secret && Some(
                c.redirect_uri,
            ) == vars.redirect_uri,
        },
{
    let ConfigVars {
        port,
        redis_url,
        jwks_url,
        jwt_issuer,
        keycloak_url,
        realm,
        client_id,
        client_secret,
        redirect_uri,
    } = vars;
    let port = match port {
        Some(p) => p,
        None => String::from_str("3000"),
    };
    let redis_url = required(redis_url, "REDIS_URL")?;
    let jwks_url = required(jwks_url, "JWKS_URL")?;
    let jwt_issuer = required(jwt_issuer, "JWT_ISSUER")?;
    let keycloak_url = required(keycloak_url, "KEYCLOAK_URL")?;
    let realm = required(realm, "REALM")?;
    let client_id = required(client_id, "CLIENT_ID")?;
    let client_secret = required(client_secret, "CLIENT_SECRET")?;
    let redirect_uri = required(redirect_uri, "REDIRECT_URI")?;
    Ok(
        AppConfig {
            port,
            redis_url,
            jwks_url,
            jwt_issuer,
            keycloak_url,
            realm,
            client_id,
            client_secret,
            redirect_uri,
        },
    )
}

impl AppConfig {
    /// The realm's OpenID Connect token endpoint at the Keycloak server:
    /// `<keycloak_url>/realms/<realm>/protocol/openid-connect/token`.
    pub fn token_endpoint(&self) -> (url: String)
        ensures
            url@ == self.keycloak_url@ + "/realms/"@ + self.realm@
                + "/protocol/openid-connect/token"@,
    {
        String::from_str(self.keycloak_url.as_str()).concat("/realms/").concat(
            self.realm.as_str(),
        ).concat("/protocol/openid-connect/token")
    }
}

} // verus!
