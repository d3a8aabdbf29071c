//! OpenID Connect sign-ins that have begun and not yet come back: each is
//! recorded under its CSRF state when the browser is sent to the provider,
//! and taken out, once, when the provider sends it back.
use vstd::prelude::*;
use dashmap::DashMap;

verus! {

/// The concurrent map `dashmap::DashMap`, opaque to Verus; what each map
/// holds is named per use (`pending_contents`, `udp_session_contents`).
#[verifier::external_type_specification]
#[verifier::external_body]
#[verifier::reject_recursive_types(K)]
#[verifier::reject_recursive_types(V)]
#[verifier::reject_recursive_types(S)]
pub struct ExDashMap<K, V, S>(DashMap<K, V, S>);

/// A sign-in on its way: the provider it went to, the secrets of its nonce
/// and PKCE verifier, and the page to go on to afterwards.
#[derive(Clone, Debug)]
pub struct OidcState {
    pub provider: String,
    pub nonce: String,
    pub pkce_verifier: String,
    pub continue_to: Option<String>,
}

/// A concurrent map of sign-ins by state.
pub type PendingMap = DashMap<String, OidcState>;

/// What a concurrent map of sign-ins holds: the sign-in under each state.
pub uninterp spec fn pending_contents(m: PendingMap) -> Map<Seq<char>, OidcState>;

/// `DashMap::new`: a map that holds nothing.
#[verifier::external_body]
fn pending_map_new() -> (m: PendingMap)
    ensures
        pending_contents(m).dom() == Set::<Seq<char>>::empty(),
{
    DashMap::new()
}

/// `DashMap::insert`: the sign-in is recorded under the key, in place of
/// any recorded there before, which is handed back.
#[verifier::external_body]
fn pending_map_insert(m: &mut PendingMap, key: String, value: OidcState) -> (prev: Option<OidcState>)
    ensures
        pending_contents(*final(m)) == pending_contents(*old(m)).insert(key@, value),
        prev == (if pending_contents(*old(m)).contains_key(key@) {
            Some(pending_contents(*old(m))[key@])
        } else {
            None
        }),
{
    m.insert(key, value)
}

/// `DashMap::remove`: the entry under the key is taken out and handed back
/// with its key, where there is one.
#[verifier::external_body]
fn pending_map_remove(m: &mut PendingMap, key: &str) -> (r: Option<(String, OidcState)>)
    ensures
        pending_contents(*final(m)) == pending_contents(*old(m)).remove(key@),
        pending_contents(*old(m)).contains_key(key@) <==> r is Some,
        (r matches Some(e) ==> e.0@ == key@ && e.1 == pending_contents(*old(m))[key@]),
{
    m.remove(key)
}

/// Why a sign-in with a provider was refused.
#[derive(Clone, Copy, Debug)]
pub enum OidcError {
    /// No provider of that name is configured.
    UnknownProvider,
    /// No sign-in is on its way under that state.
    InvalidState,
}

impl OidcError {
    /// The message that describes the error.
    pub fn message(&self) -> (m: &'static str)
        ensures
            match self {
                OidcError::UnknownProvider => m@ == "Unknown OIDC provider"@,
                OidcError::InvalidState => m@ == "Invalid state"@,
            },
    {
        match self {
            OidcError::UnknownProvider => "Unknown OIDC provider",
            OidcError::InvalidState => "Invalid state",
        }
    }
}

/// The names of providers, as sequences of characters.
pub open spec fn name_views(v: Seq<String>) -> Seq<Seq<char>> {
    v.map_values(|s: String| s@)
}

/// The sign-ins after one begins: refused for an unknown provider, else
/// recorded under its state.
pub open spec fn begin_outcome(
    pending: Map<Seq<char>, OidcState>,
    known: Seq<Seq<char>>,
    state: Seq<char>,
    login: OidcState,
) -> (Map<Seq<char>, OidcState>, Result<(), OidcError>) {
    if known.contains(login.provider@) {
        (pending.insert(state, login), Ok(()))
    } else {
        (pending, Err(OidcError::UnknownProvider))
    }
}

/// The sign-ins after one comes back under a state: an unknown state is
/// refused; a known one is taken out, and handed back where its provider is
/// still configured.
pub open spec fn finish_outcome(
    pending: Map<Seq<char>, OidcState>,
    known: Seq<Seq<char>>,
    state: Seq<char>,
) -> (Map<Seq<char>, OidcState>, Result<OidcState, OidcError>) {
    if !pending.contains_key(state) {
        (pending, Err(OidcError::InvalidState))
    } else if known.contains(pending[state].provider@) {
        (pending.remove(state), Ok(pending[state]))
    } else {
        (pending.remove(state), Err(OidcError::UnknownProvider))
    }
}

/// The sign-ins on their way.
pub struct OidcLogins {
    pending: PendingMap,
}

impl OidcLogins {
    /// The sign-in recorded under each state.
    pub closed spec fn pending_view(&self) -> Map<Seq<char>, OidcState> {
        pending_contents(self.pending)
    }

    /// No sign-in on its way.
    pub fn new() -> (l: OidcLogins)
        ensures
            l.pending_view().dom() == Set::<Seq<char>>::empty(),
    {
        OidcLogins { pending: pending_map_new() }
    }

    /// Whether a provider of the name is configured.
    fn provider_known(known: &Vec<String>, provider: &String) -> (b: bool)
        ensures
            b == name_views(known@).contains(provider@),
    {
        let ghost names = name_views(known@);
        let n = known.len();
        let mut i: usize = 0;
        while i < n
            invariant
                n == known@.len(),
                names == name_views(known@),
                i <= n,
                forall|j: int| 0 <= j < i ==> names[j] != provider@,
            decreases n - i,
        {
            if known[i] == *provider {
                assert(names[i as int] == provider@);
                return true;
            }
            i = i + 1;
        }
        false
    }

    /// Begins a sign-in with a provider: refused where the provider is not
    /// one of `known`; else recorded under its CSRF state, in place of any
    /// sign-in recorded there before.
    pub fn begin(&mut self, known: &Vec<String>, state: String, login: OidcState) -> (r: Result<(), OidcError>)
        ensures
            (final(self).pending_view(), r) == begin_outcome(old(self).pending_view(), name_views(known@), state@, login),
    {
        if !Self::provider_known(known, &login.provider) {
            return Err(OidcError::UnknownProvider);
        }
        pending_map_insert(&mut self.pending, state, login);
        Ok(())
    }

    /// Finishes the sign-in that comes back under a state: it is taken out,
    /// so that the state serves once; refused where no sign-in is on its way
    /// under it, or where its provider is not one of `known`.
    pub fn finish(&mut self, known: &Vec<String>, state: &str) -> (r: Result<OidcState, OidcError>)
        ensures
            (final(self).pending_view(), r) == finish_outcome(old(self).pending_view(), name_views(known@), state@),
    {
        match pending_map_remove(&mut self.pending, state) {
            None => Err(OidcError::InvalidState),
            Some((_, login)) => if Self::provider_known(known, &login.provider) {
                Ok(login)
            } else {
                Err(OidcError::UnknownProvider)
            },
        }
    }
}

/// A state serves once: whatever came of a sign-in coming back under it,
/// coming back under it again is refused as an invalid state.
pub proof fn law_state_serves_once(pending: Map<Seq<char>, OidcState>, known: Seq<Seq<char>>, state: Seq<char>)
    ensures
        ({
            let (after, _) = finish_outcome(pending, known, state);
            finish_outcome(after, known, state) == (after, Err::<OidcState, OidcError>(OidcError::InvalidState))
        }),
{
}

/// A sign-in begun with a configured provider comes back, under its state,
/// as it was begun, and leaves the other sign-ins as they were.
pub proof fn law_begun_sign_in_comes_back(
    pending: Map<Seq<char>, OidcState>,
    known: Seq<Seq<char>>,
    state: Seq<char>,
    login: OidcState,
)
    requires
        known.contains(login.provider@),
    ensures
        ({
            let (begun, b) = begin_outcome(pending, known, state, login);
            let (finished, f) = finish_outcome(begun, known, state);
            &&& b is Ok
            &&& f == Ok::<OidcState, OidcError>(login)
            &&& finished == pending.remove(state)
        }),
{
    let (begun, _) = begin_outcome(pending, known, state, login);
    assert(begun.remove(state) =~= pending.remove(state));
}

} // verus!
