use argon2::password_hash::SaltString;
use argon2::{Argon2, PasswordHasher};
use radiance::acme_config::{Config as AcmeConfig, ConfigError, EnvVars};
use radiance::api_config::{capabilities, ApiConfig, OidcProvider};
use radiance::api_errors::{ApiError, Error};
use radiance::api_requests::{
    add_certificate_command, AddHostRequest, ClearHttpChallengeRequest, SetHttpChallengeRequest, UpdateHostRequest,
};
use radiance::auth::{
    bearer_token, callback_location, password_login, session_for_request, AuthError, AuthMiddleware, LoginError,
    PasswordLogin, PasswordLoginResponse,
};
use radiance::control_client::{frame_line, RadianceControlClient, ZenithControlClient};
use radiance::radiance_types::{
    ControlCommand, ControlError, HostConfig, PartialHostConfig, TlsCertConfig, UpstreamConfig,
};
use radiance::sessions::{Session, SessionCheck, SESSION_LIFETIME_MILLIS, TOKEN_LENGTH};

fn provider(id: &str) -> OidcProvider {
    OidcProvider {
        id: id.to_string(),
        display_name: format!("{} login", id),
        issuer_url: "https://issuer".to_string(),
        client_id: "cid".to_string(),
        client_secret: "secret".to_string(),
        redirect_uri: "https://app/callback".to_string(),
        logo_path: Some("/logo.svg".to_string()),
    }
}

fn api_config(hash: Option<String>, providers: Vec<OidcProvider>) -> ApiConfig {
    ApiConfig { listen: "0.0.0.0:3000".to_string(), socket_path: "/tmp/radiance.sock".to_string(), password_hash: hash, oidc_providers: providers }
}

fn env(key: Option<&str>, email: Option<&str>, domains: Option<&str>, prod: Option<&str>, out: Option<&str>) -> EnvVars {
    EnvVars {
        cloudflare_api_key: key.map(|s| s.to_string()),
        acme_email: email.map(|s| s.to_string()),
        domains: domains.map(|s| s.to_string()),
        use_production: prod.map(|s| s.to_string()),
        output_dir: out.map(|s| s.to_string()),
    }
}

#[test]
fn authentication_is_required_somewhere() {
    assert!(!api_config(None, vec![]).has_authentication());
    assert!(api_config(Some("h".to_string()), vec![]).has_authentication());
    assert!(api_config(None, vec![provider("google")]).has_authentication());
}

#[test]
fn capabilities_list_providers_with_their_paths() {
    let c = capabilities(&api_config(None, vec![provider("google"), provider("gh")]), "0.1.0".to_string());
    assert_eq!(c.version, "0.1.0");
    assert!(!c.password_authentication);
    assert_eq!(c.oidc_providers.len(), 2);
    assert_eq!(c.oidc_providers[0].auth_path, "/api/oidc/google");
    assert_eq!(c.oidc_providers[1].auth_path, "/api/oidc/gh");
    assert_eq!(c.oidc_providers[1].display_name, "gh login");
    assert_eq!(c.oidc_providers[0].logo_path.as_deref(), Some("/logo.svg"));
}

#[test]
fn status_codes() {
    assert_eq!(Error::DatabaseError.status_code(), 500);
    assert_eq!(Error::MissingToken.status_code(), 401);
    assert_eq!(Error::BackchannelLogoutError.status_code(), 400);
    assert_eq!(Error::RateLimited { limit: 1, remaining: 0, reset: 5 }.status_code(), 429);
    assert_eq!(ApiError::from_control_error(ControlError::HostNotFound).status_code(), 404);
    assert_eq!(ApiError::from_control_error(ControlError::HostAlreadyExists).status_code(), 409);
    assert_eq!(ApiError::from_control_error(ControlError::InvalidCertificate).status_code(), 400);
    assert_eq!(ApiError::from_control_error(ControlError::FailedToSave).status_code(), 500);
    assert_eq!(ApiError::GeneralError(Error::InvalidToken).status_code(), 401);
}

#[test]
fn sessions_last_a_day() {
    assert_eq!(SESSION_LIFETIME_MILLIS, 24 * 60 * 60 * 1000);
    assert_eq!(TOKEN_LENGTH, 64);
    let s = Session::create("01ID".to_string(), "tok".to_string(), 1000, None);
    assert_eq!(s.expires_at, 86_401_000);
    assert!(matches!(Session::check(Some(s.clone()), 86_401_000), SessionCheck::Valid(_)));
    match Session::check(Some(s), 86_401_001) {
        SessionCheck::Expired(id) => assert_eq!(id, "01ID"),
        _ => panic!("expected expiry"),
    }
    assert!(matches!(Session::check(None, 0), SessionCheck::Missing));
}

#[test]
fn bearer_token_must_be_readable_text() {
    assert!(matches!(bearer_token(None), Err(AuthError::MissingToken)));
    assert!(matches!(bearer_token(Some(b"abc\x01")), Err(AuthError::InvalidToken)));
    assert!(matches!(bearer_token(Some("caf\u{e9}".as_bytes())), Err(AuthError::InvalidToken)));
    assert_eq!(bearer_token(Some(b"tok en\t")).ok().unwrap(), "tok en\t");
    assert_eq!(AuthError::MissingToken.message(), "Missing token");
    assert_eq!(AuthError::Internal.message(), "Internal error");
}

#[test]
fn session_lookup_outcomes() {
    assert!(matches!(session_for_request(Err(())), Err(AuthError::Internal)));
    assert!(matches!(session_for_request(Ok(None)), Err(AuthError::InvalidToken)));
    let s = Session::create("i".to_string(), "t".to_string(), 0, None);
    assert_eq!(session_for_request(Ok(Some(s))).ok().unwrap().token, "t");
}

#[test]
fn password_login_checks_the_argon2_hash() {
    let salt = SaltString::from_b64("c29tZXNhbHRzb21lc2FsdA").unwrap();
    let hash = Argon2::default().hash_password(b"hunter2", &salt).unwrap().to_string();
    let cfg = api_config(Some(hash), vec![]);
    assert!(password_login(&cfg, &PasswordLogin { password: "hunter2".to_string() }).is_ok());
    assert!(matches!(password_login(&cfg, &PasswordLogin { password: "wrong".to_string() }), Err(LoginError::InvalidPassword)));
    let bad = api_config(Some("not a hash".to_string()), vec![]);
    assert!(matches!(password_login(&bad, &PasswordLogin { password: "hunter2".to_string() }), Err(LoginError::InvalidPassword)));
    let off = api_config(None, vec![]);
    assert!(matches!(password_login(&off, &PasswordLogin { password: "x".to_string() }), Err(LoginError::PasswordNotEnabled)));
    assert_eq!(LoginError::PasswordNotEnabled.message(), "Password authentication not enabled");
}

#[test]
fn login_response_carries_the_session() {
    let s = Session::create("i".to_string(), "tok".to_string(), 5, None);
    let r = PasswordLoginResponse::for_session(&s);
    assert_eq!(r.token, "tok");
    assert_eq!(r.expires_at, 5 + SESSION_LIFETIME_MILLIS);
}

#[test]
fn callback_redirects_to_authenticate() {
    assert_eq!(callback_location("t", &None), "/authenticate?token=t&continue=/");
    assert_eq!(callback_location("t", &Some("/hosts".to_string())), "/authenticate?token=t&continue=/hosts");
    let m = AuthMiddleware.new_transform(7u8);
    assert_eq!(m.service, 7);
}

#[test]
fn acme_settings_from_environment() {
    let c = AcmeConfig::from_env(env(Some("k"), Some("a@b"), Some(" a.com , b.com,"), Some("true"), None)).ok().unwrap();
    assert_eq!(c.domains, vec!["a.com", "b.com"]);
    assert!(c.use_production);
    assert_eq!(c.output_dir, "./certs");
    assert!(c.validate().is_ok());
    let c = AcmeConfig::from_env(env(Some("k"), Some("a@b"), Some("x"), Some("TRUE"), Some("/out"))).ok().unwrap();
    assert!(!c.use_production);
    assert_eq!(c.output_dir, "/out");
    assert!(matches!(AcmeConfig::from_env(env(None, Some("a"), Some("x"), None, None)), Err(ConfigError::CloudflareApiKeyNotSet)));
    assert!(matches!(AcmeConfig::from_env(env(Some("k"), None, Some("x"), None, None)), Err(ConfigError::AcmeEmailNotSet)));
    assert!(matches!(AcmeConfig::from_env(env(Some("k"), Some("a"), None, None, None)), Err(ConfigError::DomainsNotSet)));
    assert!(matches!(AcmeConfig::from_env(env(Some("k"), Some("a"), Some(" , "), None, None)), Err(ConfigError::NoDomainsInVariable)));
    assert_eq!(ConfigError::NoDomainsInVariable.message(), "No domains specified in DOMAINS variable");
}

#[test]
fn acme_settings_validation() {
    let mut c = AcmeConfig::from_env(env(Some("k"), Some("a@b"), Some("x"), None, None)).ok().unwrap();
    c.domains.clear();
    assert!(matches!(c.validate(), Err(ConfigError::NoDomains)));
    c.account_email.clear();
    assert!(matches!(c.validate(), Err(ConfigError::AccountEmailEmpty)));
    c.cloudflare_api_key.clear();
    assert!(matches!(c.validate(), Err(ConfigError::CloudflareApiKeyEmpty)));
}

#[test]
fn requests_become_commands() {
    let host = HostConfig { domains: vec!["a.com".to_string()], upstream: UpstreamConfig { servers: vec![] } };
    match (AddHostRequest { id: "a".to_string(), config: host }).into_command() {
        ControlCommand::AddHost { id, host } => assert_eq!((id.as_str(), host.domains.len()), ("a", 1)),
        _ => panic!("wrong command"),
    }
    match (UpdateHostRequest { config: PartialHostConfig { domains: None, upstream: None } }).into_command("a".to_string()) {
        ControlCommand::UpdateHost { id, .. } => assert_eq!(id, "a"),
        _ => panic!("wrong command"),
    }
    match (SetHttpChallengeRequest { domain: "d".to_string(), token: "t".to_string(), thumbprint: "p".to_string() }).into_command() {
        ControlCommand::SetHttpChallenge { domain, token, thumbprint } => assert_eq!((domain, token, thumbprint), ("d".to_string(), "t".to_string(), "p".to_string())),
        _ => panic!("wrong command"),
    }
    match (ClearHttpChallengeRequest { domain: "d".to_string(), token: "t".to_string() }).into_command() {
        ControlCommand::ClearHttpChallenge { domain, token } => assert_eq!((domain, token), ("d".to_string(), "t".to_string())),
        _ => panic!("wrong command"),
    }
    match add_certificate_command(TlsCertConfig::Vault { id: "v1".to_string() }) {
        ControlCommand::AddCertificate { id, .. } => assert_eq!(id, "v1"),
        _ => panic!("wrong command"),
    }
}

#[test]
fn control_clients_and_framing() {
    assert_eq!(RadianceControlClient::new("/tmp/radiance.sock".to_string()).socket_path(), "/tmp/radiance.sock");
    assert_eq!(ZenithControlClient::new("/tmp/zenith.sock".to_string()).socket_path(), "/tmp/zenith.sock");
    assert_eq!(frame_line("{\"ListHosts\":null}"), "{\"ListHosts\":null}\n");
}

#[test]
fn started_session_has_ulid_id_and_alphanumeric_token() {
    let a = Session::start(1_000, None);
    let b = Session::start(1_000, None);
    assert_eq!(a.expires_at, 1_000 + SESSION_LIFETIME_MILLIS);
    assert_eq!(a.token.len(), TOKEN_LENGTH);
    assert_eq!(TOKEN_LENGTH, 64);
    assert!(a.token.chars().all(|c| c.is_ascii_alphanumeric()));
    assert_eq!(a.id.len(), 26);
    assert!(a.id.chars().all(|c| "0123456789ABCDEFGHJKMNPQRSTVWXYZ".contains(c)));
    assert_ne!(a.token, b.token);
    assert_ne!(a.id, b.id);
    assert!(a.oidc_data.is_none());
}
