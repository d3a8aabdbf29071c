use radiance::oidc_logins::{OidcError, OidcLogins, OidcState};

fn login(provider: &str, continue_to: Option<&str>) -> OidcState {
    OidcState {
        provider: provider.to_string(),
        nonce: "nonce-secret".to_string(),
        pkce_verifier: "pkce-secret".to_string(),
        continue_to: continue_to.map(|s| s.to_string()),
    }
}

fn known() -> Vec<String> {
    vec!["google".to_string(), "github".to_string()]
}

#[test]
fn begun_sign_in_comes_back_once() {
    let mut logins = OidcLogins::new();
    assert!(logins.begin(&known(), "csrf-1".to_string(), login("github", Some("/hosts"))).is_ok());
    let back = logins.finish(&known(), "csrf-1").unwrap();
    assert_eq!(back.provider, "github");
    assert_eq!(back.nonce, "nonce-secret");
    assert_eq!(back.pkce_verifier, "pkce-secret");
    assert_eq!(back.continue_to.as_deref(), Some("/hosts"));
    assert!(matches!(logins.finish(&known(), "csrf-1"), Err(OidcError::InvalidState)));
}

#[test]
fn unknown_provider_is_refused_and_not_recorded() {
    let mut logins = OidcLogins::new();
    let r = logins.begin(&known(), "csrf-2".to_string(), login("gitlab", None));
    assert!(matches!(r, Err(OidcError::UnknownProvider)));
    assert!(matches!(logins.finish(&known(), "csrf-2"), Err(OidcError::InvalidState)));
}

#[test]
fn unknown_state_is_refused() {
    let mut logins = OidcLogins::new();
    assert!(logins.begin(&known(), "csrf-3".to_string(), login("google", None)).is_ok());
    assert!(matches!(logins.finish(&known(), "csrf-4"), Err(OidcError::InvalidState)));
    assert!(logins.finish(&known(), "csrf-3").is_ok());
}

#[test]
fn provider_gone_at_callback_consumes_the_state() {
    let mut logins = OidcLogins::new();
    assert!(logins.begin(&known(), "csrf-5".to_string(), login("google", None)).is_ok());
    let fewer = vec!["github".to_string()];
    assert!(matches!(logins.finish(&fewer, "csrf-5"), Err(OidcError::UnknownProvider)));
    assert!(matches!(logins.finish(&known(), "csrf-5"), Err(OidcError::InvalidState)));
}

#[test]
fn later_sign_in_under_same_state_replaces_earlier() {
    let mut logins = OidcLogins::new();
    assert!(logins.begin(&known(), "csrf-6".to_string(), login("google", Some("/a"))).is_ok());
    assert!(logins.begin(&known(), "csrf-6".to_string(), login("github", Some("/b"))).is_ok());
    let back = logins.finish(&known(), "csrf-6").unwrap();
    assert_eq!(back.provider, "github");
    assert_eq!(back.continue_to.as_deref(), Some("/b"));
}

#[test]
fn oidc_error_messages() {
    assert_eq!(OidcError::UnknownProvider.message(), "Unknown OIDC provider");
    assert_eq!(OidcError::InvalidState.message(), "Invalid state");
}
