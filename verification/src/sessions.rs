//! Sign-in sessions of the management API: how long they last and when a
//! stored session is still good.
use vstd::prelude::*;

verus! {

/// How long a session lasts, in milliseconds: a day.
pub const SESSION_LIFETIME_MILLIS: u64 = 86400000;

/// How many characters a session token has.
pub const TOKEN_LENGTH: usize = 64;

/// The OpenID Connect sign-in a session came from.
#[derive(Clone, Debug)]
pub struct OidcSessionData {
    pub provider: String,
    pub subject: String,
    pub sid: Option<String>,
}

/// A sign-in session: its identifier, bearer token, expiry time in
/// milliseconds since the Unix epoch, and where it came from.
#[derive(Clone, Debug)]
pub struct Session {
    pub id: String,
    pub token: String,
    pub expires_at: u64,
    pub oidc_data: Option<OidcSessionData>,
}

/// What a stored session comes to when it is looked up.
#[derive(Debug)]
pub enum SessionCheck {
    /// The session is good.
    Valid(Session),
    /// The session has expired; the one with this identifier is to be deleted.
    Expired(String),
    /// No session has the token.
    Missing,
}

/// Whether a character is an ASCII letter or digit.
pub open spec fn ascii_alphanumeric(c: char) -> bool {
    ('0' <= c && c <= '9') || ('A' <= c && c <= 'Z') || ('a' <= c && c <= 'z')
}

/// Whether a character is a digit of Crockford's base 32: an ASCII digit
/// or an upper-case letter other than I, L, O and U.
pub open spec fn crockford_digit(c: char) -> bool {
    ('0' <= c && c <= '9') || ('A' <= c && c <= 'Z' && c != 'I' && c != 'L' && c != 'O' && c != 'U')
}

/// Whether a string is a ULID as text: 26 digits of Crockford's base 32.
pub open spec fn ulid_text(s: Seq<char>) -> bool {
    s.len() == 26 && forall|i: int| 0 <= i < s.len() ==> crockford_digit(#[trigger] s[i])
}

/// Whether a string is a session token: `TOKEN_LENGTH` ASCII letters and digits.
pub open spec fn token_text(s: Seq<char>) -> bool {
    s.len() == TOKEN_LENGTH && forall|i: int| 0 <= i < s.len() ==> ascii_alphanumeric(#[trigger] s[i])
}

/// Draws `len` characters from `rand::distr::Alphanumeric` with the
/// thread's generator (`rand::rng`). The contract claims what holds of every
/// draw: the length, and that each character is an ASCII letter or digit.
#[verifier::external_body]
fn random_alphanumeric(len: usize) -> (s: String)
    ensures
        s@.len() == len,
        forall|i: int| 0 <= i < s@.len() ==> ascii_alphanumeric(#[trigger] s@[i]),
{
    rand::Rng::sample_iter(rand::rng(), rand::distr::Alphanumeric).take(len).map(char::from).collect()
}

/// A new ULID (`ulid::Ulid::new`, from the clock and the thread's
/// generator) written with `Ulid::to_string`. The contract claims what holds
/// of every one: 26 characters of Crockford's base 32.
#[verifier::external_body]
fn new_ulid() -> (s: String)
    ensures
        ulid_text(s@),
{
    ulid::Ulid::new().to_string()
}

impl Session {
    /// A new session created at `now`, lasting a day.
    pub fn create(id: String, token: String, now: u64, oidc: Option<OidcSessionData>) -> (s: Session)
        requires
            now + SESSION_LIFETIME_MILLIS <= u64::MAX,
        ensures
            s.id == id,
            s.token == token,
            s.expires_at == now + SESSION_LIFETIME_MILLIS,
            s.oidc_data == oidc,
    {
        Session { id, token, expires_at: now + SESSION_LIFETIME_MILLIS, oidc_data: oidc }
    }

    /// A new session created at `now`, lasting a day, with a fresh ULID as
    /// its identifier and a fresh random token.
    pub fn start(now: u64, oidc: Option<OidcSessionData>) -> (s: Session)
        requires
            now + SESSION_LIFETIME_MILLIS <= u64::MAX,
        ensures
            ulid_text(s.id@),
            token_text(s.token@),
            s.expires_at == now + SESSION_LIFETIME_MILLIS,
            s.oidc_data == oidc,
    {
        let id = new_ulid();
        let token = random_alphanumeric(TOKEN_LENGTH);
        Session::create(id, token, now, oidc)
    }

    /// What a looked-up session comes to at `now`: good up to and including
    /// its expiry time, expired after it.
    pub fn check(found: Option<Session>, now: u64) -> (c: SessionCheck)
        ensures
            match found {
                None => c is Missing,
                Some(s) => if now > s.expires_at {
                    c matches SessionCheck::Expired(id) && id == s.id
                } else {
                    c matches SessionCheck::Valid(v) && v == s
                },
            },
    {
        match found {
            None => SessionCheck::Missing,
            Some(s) => if now > s.expires_at {
                SessionCheck::Expired(s.id)
            } else {
                SessionCheck::Valid(s)
            },
        }
    }
}


/// Whether a session is still good at `now`.
pub open spec fn session_valid_at(s: Session, now: u64) -> bool {
    now <= s.expires_at
}

/// A session created at `now` is good for exactly one day: up to and
/// including `now` plus the lifetime, and expired after.
pub proof fn law_session_lasts_a_day(id: String, token: String, created: u64, oidc: Option<OidcSessionData>, at: u64)
    requires
        created + SESSION_LIFETIME_MILLIS <= u64::MAX,
    ensures
        ({
            let s = Session { id, token, expires_at: (created + SESSION_LIFETIME_MILLIS) as u64, oidc_data: oidc };
            session_valid_at(s, at) <==> at <= created + SESSION_LIFETIME_MILLIS
        }),
{
}

} // verus!
