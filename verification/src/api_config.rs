//! The management API's configuration and the capabilities it announces.
use vstd::prelude::*;

verus! {

/// An OpenID Connect provider users may sign in with.
#[derive(Clone, Debug)]
pub struct OidcProvider {
    pub id: String,
    pub display_name: String,
    pub issuer_url: String,
    pub client_id: String,
    pub client_secret: String,
    pub redirect_uri: String,
    pub logo_path: Option<String>,
}

/// The management API's configuration.
#[derive(Clone, Debug)]
pub struct ApiConfig {
    pub listen: String,
    pub socket_path: String,
    pub password_hash: Option<String>,
    pub oidc_providers: Vec<OidcProvider>,
}

impl ApiConfig {
    /// Whether some way of signing in is configured: a password, or an
    /// OpenID Connect provider.
    pub fn has_authentication(&self) -> (b: bool)
        ensures
            b == (self.password_hash is Some || self.oidc_providers@.len() > 0),
    {
        self.password_hash.is_some() || self.oidc_providers.len() > 0
    }
}

/// An OpenID Connect provider as the API announces it.
#[derive(Clone, Debug)]
pub struct OidcProviderInfo {
    pub id: String,
    pub display_name: String,
    pub logo_path: Option<String>,
    pub auth_path: String,
}

/// What the API announces about itself.
#[derive(Clone, Debug)]
pub struct CapabilitiesResponse {
    pub version: String,
    pub oidc_providers: Vec<OidcProviderInfo>,
    pub password_authentication: bool,
}

/// The path that starts sign-in with a provider.
pub open spec fn auth_path_of(id: Seq<char>) -> Seq<char> {
    "/api/oidc/"@ + id
}

/// Whether an info announces a provider.
pub open spec fn announces(info: OidcProviderInfo, p: OidcProvider) -> bool {
    &&& info.id == p.id
    &&& info.display_name == p.display_name
    &&& info.logo_path == p.logo_path
    &&& info.auth_path@ == auth_path_of(p.id@)
}

fn copy_option(s: &Option<String>) -> (r: Option<String>)
    ensures
        r == *s,
{
    match s {
        Some(v) => Some(v.clone()),
        None => None,
    }
}

/// What the API announces: its version, each provider in order with its
/// sign-in path, and whether password sign-in is on.
pub fn capabilities(config: &ApiConfig, version: String) -> (c: CapabilitiesResponse)
    ensures
        c.version == version,
        c.password_authentication == config.password_hash is Some,
        c.oidc_providers@.len() == config.oidc_providers@.len(),
        forall|i: int|
            0 <= i < c.oidc_providers@.len() ==> announces(#[trigger] c.oidc_providers@[i], config.oidc_providers@[i]),
{
    let n = config.oidc_providers.len();
    let mut infos: Vec<OidcProviderInfo> = Vec::new();
    let mut i: usize = 0;
    while i < n
        invariant
            n == config.oidc_providers@.len(),
            i <= n,
            infos@.len() == i,
            forall|a: int| 0 <= a < i ==> announces(#[trigger] infos@[a], config.oidc_providers@[a]),
        decreases n - i,
    {
        let p = &config.oidc_providers[i];
        infos.push(
            OidcProviderInfo {
                id: p.id.clone(),
                display_name: p.display_name.clone(),
                logo_path: copy_option(&p.logo_path),
                auth_path: String::from_str("/api/oidc/").concat(p.id.as_str()),
            },
        );
        i = i + 1;
    }
    CapabilitiesResponse { version, oidc_providers: infos, password_authentication: config.password_hash.is_some() }
}

} // verus!
