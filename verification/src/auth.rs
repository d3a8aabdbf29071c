//! Sign-in decisions of the management API: password checks, the bearer
//! token of a request, and where a finished OpenID Connect sign-in goes.
use vstd::prelude::*;
use crate::api_config::ApiConfig;
use crate::sessions::Session;
use argon2::PasswordVerifier;

verus! {

/// Whether `password` matches the Argon2 PHC hash string `password_hash`;
/// false where the hash string does not parse.
pub uninterp spec fn argon2_accepts(password_hash: Seq<char>, password: Seq<char>) -> bool;

/// Parses the hash with `argon2::PasswordHash::new` and checks the password
/// with `Argon2::default().verify_password`. The contract claims only that
/// the answer is a function of the two strings.
#[verifier::external_body]
fn verify_password(password_hash: &str, password: &str) -> (ok: bool)
    ensures
        ok == argon2_accepts(password_hash@, password@),
{
    match argon2::PasswordHash::new(password_hash) {
        Ok(parsed) => argon2::Argon2::default().verify_password(password.as_bytes(), &parsed).is_ok(),
        Err(_) => false,
    }
}

/// Whether a byte may stand in a header value that reads as text: visible
/// ASCII or a tab, as `http::HeaderValue::to_str` requires.
pub open spec fn header_byte_ok(b: u8) -> bool {
    (32 <= b < 127) || b == 9
}

/// Whether every byte of a header value may stand in text.
pub open spec fn header_text_ok(h: Seq<u8>) -> bool {
    forall|i: int| 0 <= i < h.len() ==> header_byte_ok(#[trigger] h[i])
}

/// Decodes bytes below 128 as the characters with the same codes (ASCII is
/// its own UTF-8), with `String::from_utf8`.
#[verifier::external_body]
fn ascii_to_string(bytes: &[u8]) -> (s: String)
    requires
        forall|i: int| 0 <= i < bytes@.len() ==> bytes@[i] < 128,
    ensures
        s@.len() == bytes@.len(),
        forall|i: int| 0 <= i < bytes@.len() ==> s@[i] as int == bytes@[i] as int,
{
    String::from_utf8(bytes.to_vec()).unwrap_or_default()
}

/// Why a request was refused sign-in.
#[derive(Clone, Copy, Debug)]
pub enum AuthError {
    MissingToken,
    InvalidToken,
    Internal,
}

impl AuthError {
    /// The message that describes the error.
    pub fn message(&self) -> (m: &'static str)
        ensures
            match self {
                AuthError::MissingToken => m@ == "Missing token"@,
                AuthError::InvalidToken => m@ == "Invalid token"@,
                AuthError::Internal => m@ == "Internal error"@,
            },
    {
        match self {
            AuthError::MissingToken => "Missing token",
            AuthError::InvalidToken => "Invalid token",
            AuthError::Internal => "Internal error",
        }
    }
}

/// Why a password sign-in was refused.
#[derive(Clone, Copy, Debug)]
pub enum LoginError {
    PasswordNotEnabled,
    InvalidPassword,
}

impl LoginError {
    /// The message that describes the error.
    pub fn message(&self) -> (m: &'static str)
        ensures
            match self {
                LoginError::PasswordNotEnabled => m@ == "Password authentication not enabled"@,
                LoginError::InvalidPassword => m@ == "Invalid password"@,
            },
    {
        match self {
            LoginError::PasswordNotEnabled => "Password authentication not enabled",
            LoginError::InvalidPassword => "Invalid password",
        }
    }
}

/// The middleware that lets only signed-in requests through.
#[derive(Clone, Copy, Debug)]
pub struct AuthMiddleware;

/// The middleware wrapped around a service.
pub struct AuthMiddlewareService<S> {
    pub service: S,
}

impl AuthMiddleware {
    /// The middleware around a service.
    pub fn new_transform<S>(&self, service: S) -> (m: AuthMiddlewareService<S>)
        ensures
            m.service == service,
    {
        AuthMiddlewareService { service }
    }
}

/// The bearer token of a request: its `Authorization` header, which must be
/// there and read as text.
pub fn bearer_token(header: Option<&[u8]>) -> (r: Result<String, AuthError>)
    ensures
        match header {
            None => r matches Err(AuthError::MissingToken),
            Some(h) => if header_text_ok(h@) {
                &&& r is Ok
                &&& r->Ok_0@.len() == h@.len()
                &&& forall|i: int| 0 <= i < h@.len() ==> r->Ok_0@[i] as int == h@[i] as int
            } else {
                r matches Err(AuthError::InvalidToken)
            },
        },
{
    match header {
        None => Err(AuthError::MissingToken),
        Some(h) => {
            let n = h.len();
            let mut i: usize = 0;
            while i < n
                invariant
                    header == Some(h),
                    n == h@.len(),
                    i <= n,
                    forall|j: int| 0 <= j < i ==> header_byte_ok(#[trigger] h@[j]),
                decreases n - i,
            {
                let b = h[i];
                if !((32 <= b && b < 127) || b == 9) {
                    assert(!header_byte_ok(h@[i as int]));
                    assert(!header_text_ok(h@));
                    return Err(AuthError::InvalidToken);
                }
                i = i + 1;
            }
            Ok(ascii_to_string(h))
        },
    }
}

/// What a request comes to once its token was looked up: the session where
/// one was found, an invalid token where none was, an internal error where
/// the lookup failed.
pub fn session_for_request(lookup: Result<Option<Session>, ()>) -> (r: Result<Session, AuthError>)
    ensures
        lookup is Err ==> r matches Err(AuthError::Internal),
        lookup matches Ok(None) ==> r matches Err(AuthError::InvalidToken),
        lookup matches Ok(Some(s)) ==> r == Ok::<Session, AuthError>(s),
{
    match lookup {
        Err(_) => Err(AuthError::Internal),
        Ok(None) => Err(AuthError::InvalidToken),
        Ok(Some(s)) => Ok(s),
    }
}

/// A password sign-in request.
#[derive(Clone, Debug)]
pub struct PasswordLogin {
    pub password: String,
}

/// The answer to a password sign-in: the session's token and expiry.
#[derive(Clone, Debug)]
pub struct PasswordLoginResponse {
    pub token: String,
    pub expires_at: u64,
}

impl PasswordLoginResponse {
    /// The answer for a new session.
    pub fn for_session(session: &Session) -> (r: PasswordLoginResponse)
        ensures
            r.token == session.token,
            r.expires_at == session.expires_at,
    {
        PasswordLoginResponse { token: session.token.clone(), expires_at: session.expires_at }
    }
}

/// Whether a password sign-in may go ahead: password sign-in must be on, and
/// the password must match its hash.
pub fn password_login(config: &ApiConfig, credentials: &PasswordLogin) -> (r: Result<(), LoginError>)
    ensures
        config.password_hash is None ==> r matches Err(LoginError::PasswordNotEnabled),
        config.password_hash matches Some(h) ==> (argon2_accepts(h@, credentials.password@) <==> r is Ok),
        config.password_hash is Some && r is Err ==> r matches Err(LoginError::InvalidPassword),
{
    match &config.password_hash {
        None => Err(LoginError::PasswordNotEnabled),
        Some(h) => if verify_password(h.as_str(), credentials.password.as_str()) {
            Ok(())
        } else {
            Err(LoginError::InvalidPassword)
        },
    }
}

/// The query of the OpenID Connect callback.
#[derive(Clone, Debug)]
pub struct OidcCallbackQuery {
    pub code: String,
    pub state: String,
}

/// The query that starts an OpenID Connect sign-in: where to go after it.
#[derive(Clone, Debug)]
pub struct OidcLoginQuery {
    pub continue_to: Option<String>,
}

/// Where a finished OpenID Connect sign-in sends the browser.
pub open spec fn callback_location_of(token: Seq<char>, continue_to: Option<String>) -> Seq<char> {
    "/authenticate?token="@ + token + "&continue="@ + match continue_to {
        Some(c) => c@,
        None => "/"@,
    }
}

/// Where a finished OpenID Connect sign-in sends the browser: to the
/// authenticate page with the session token and the page to go on to (the
/// root by default).
pub fn callback_location(token: &str, continue_to: &Option<String>) -> (l: String)
    ensures
        l@ == callback_location_of(token@, *continue_to),
{
    let base = String::from_str("/authenticate?token=").concat(token).concat("&continue=");
    match continue_to {
        Some(c) => base.concat(c.as_str()),
        None => base.concat("/"),
    }
}

} // verus!
