//! What the proxy's control socket does with each command: the changes to
//! the live configuration and the answer, with the file work (saving,
//! reloading, reading certificate files) left to the caller as actions.
use vstd::prelude::*;
use crate::certificates::{days_remaining_of, get_expiration, CertificateLoadError, LoadedCertificate};
use crate::keyed_map::{lists_dropped, owned_pairs, restricted_to, KeyedMap};
use crate::proxy_config::{Config, FullConfig, TlsCertConfigState, TlsCertConfigWithKey};
use crate::radiance_types::{ControlCommand, ControlError, HostConfig, PartialHostConfig, TlsCertConfig};

verus! {

/// The state that control commands read and change.
pub struct ProxyModel {
    pub hosts: Map<Seq<char>, HostConfig>,
    pub certificates: Map<Seq<char>, TlsCertConfigWithKey>,
    pub challenges: Map<Seq<char>, (String, String)>,
}

/// Whether some host answers for the domain.
pub open spec fn domain_in_use(hosts: Map<Seq<char>, HostConfig>, d: Seq<char>) -> bool {
    exists|k: Seq<char>| hosts.contains_key(k) && (#[trigger] hosts[k].domain_views()).contains(d)
}

/// Whether a host shares a domain with a host already there.
pub open spec fn conflicts(hosts: Map<Seq<char>, HostConfig>, host: HostConfig) -> bool {
    exists|i: int| 0 <= i < host.domain_views().len() && domain_in_use(hosts, #[trigger] host.domain_views()[i])
}

/// Adding a host: refused where one of its domains is taken; otherwise the
/// host goes in under the identifier, in place of any host there.
pub open spec fn add_host_spec(m: ProxyModel, id: Seq<char>, host: HostConfig) -> (ProxyModel, Result<(), ControlError>) {
    if conflicts(m.hosts, host) {
        (m, Err(ControlError::HostAlreadyExists))
    } else {
        (ProxyModel { hosts: m.hosts.insert(id, host), ..m }, Ok(()))
    }
}

/// Updating a host: its present fields are replaced.
pub open spec fn update_host_spec(m: ProxyModel, id: Seq<char>, partial: PartialHostConfig) -> (ProxyModel, Result<(), ControlError>) {
    if !m.hosts.contains_key(id) {
        (m, Err(ControlError::HostNotFound))
    } else {
        (ProxyModel { hosts: m.hosts.insert(id, m.hosts[id].with_partial(partial)), ..m }, Ok(()))
    }
}

/// Removing a host.
pub open spec fn remove_host_spec(m: ProxyModel, id: Seq<char>) -> (ProxyModel, Result<(), ControlError>) {
    if !m.hosts.contains_key(id) {
        (m, Err(ControlError::HostNotFound))
    } else {
        (ProxyModel { hosts: m.hosts.remove(id), ..m }, Ok(()))
    }
}

/// Setting an HTTP challenge for a domain, in place of any there.
pub open spec fn set_challenge_spec(m: ProxyModel, domain: Seq<char>, token: String, thumbprint: String) -> (ProxyModel, Result<(), ControlError>) {
    (ProxyModel { challenges: m.challenges.insert(domain, (token, thumbprint)), ..m }, Ok(()))
}

/// Clearing an HTTP challenge: only the one with the same token goes.
pub open spec fn clear_challenge_spec(m: ProxyModel, domain: Seq<char>, token: Seq<char>) -> (ProxyModel, Result<(), ControlError>) {
    if m.challenges.contains_key(domain) && m.challenges[domain].0@ == token {
        (ProxyModel { challenges: m.challenges.remove(domain), ..m }, Ok(()))
    } else {
        (m, Err(ControlError::HttpChallengeNotFound))
    }
}

/// The entry of a certificate that has just been loaded.
pub open spec fn loaded_entry(c: TlsCertConfig, l: LoadedCertificate) -> TlsCertConfigWithKey {
    TlsCertConfigWithKey { config: c, cert: TlsCertConfigState::Loaded(l), discarded: false }
}

/// Adding a certificate: refused for a known identifier, or where its
/// material did not load; otherwise it goes in, loaded.
pub open spec fn add_certificate_spec(
    m: ProxyModel,
    id: Seq<char>,
    certificate: TlsCertConfig,
    material: Result<LoadedCertificate, CertificateLoadError>,
) -> (ProxyModel, Result<(), ControlError>) {
    if m.certificates.contains_key(id) {
        (m, Err(ControlError::CertificateAlreadyExists))
    } else {
        match material {
            Err(_) => (m, Err(ControlError::InvalidCertificate)),
            Ok(l) => (
                ProxyModel { certificates: m.certificates.insert(id, loaded_entry(certificate, l)), ..m },
                Ok(()),
            ),
        }
    }
}

/// Removing a certificate takes out every certificate whose identifier is
/// not `id` and keeps the one that is; where there is nothing to take out
/// the answer is `CertificateNotFound`.
pub open spec fn remove_certificate_spec(m: ProxyModel, id: Seq<char>) -> (ProxyModel, Result<(), ControlError>) {
    if forall|k: Seq<char>| #[trigger] m.certificates.contains_key(k) ==> k == id {
        (m, Err(ControlError::CertificateNotFound))
    } else {
        (ProxyModel { certificates: restricted_to(m.certificates, seq![id]), ..m }, Ok(()))
    }
}

/// What the caller does next with a command.
#[derive(Debug)]
pub enum ProxyAction {
    /// Answer at once.
    Respond(Result<(), ControlError>),
    /// The configuration changed: save it, then answer as `save_outcome` says.
    Save,
    /// Answer with all hosts.
    ShowHosts,
    /// Answer with the host under the identifier (see `get_host`).
    ShowHost(String),
    /// Answer with all certificates (see `certificate_infos`).
    ShowCertificates,
    /// Answer with the certificate under the identifier (see `certificate_info`).
    ShowCertificate(String),
    /// Load the configuration file, then call `reload`.
    Reload,
    /// Read the certificate's material, then call `add_certificate`.
    ReadCertificate { id: String, certificate: TlsCertConfig },
}

/// The action for the outcome of a change: save it, or answer the error.
pub open spec fn change_action(r: Result<(), ControlError>) -> ProxyAction {
    match r {
        Ok(_) => ProxyAction::Save,
        Err(e) => ProxyAction::Respond(Err(e)),
    }
}

/// The answer to a change, once saving it succeeded or failed.
pub fn save_outcome(saved: bool) -> (r: Result<(), ControlError>)
    ensures
        saved ==> r is Ok,
        !saved ==> r matches Err(ControlError::FailedToSave),
{
    if saved {
        Ok(())
    } else {
        Err(ControlError::FailedToSave)
    }
}

/// The answer to a command that was not valid JSON.
pub fn malformed_command() -> (r: Result<(), ControlError>)
    ensures
        r matches Err(ControlError::MalformedCommand),
{
    Err(ControlError::MalformedCommand)
}

/// A certificate as the control socket shows it.
pub struct TlsCertificateInfo<'a> {
    pub config: &'a TlsCertConfig,
    pub days_remaining: Option<i64>,
}

/// The days left of a certificate entry: those of the leaf, where it has
/// loaded and parses.
pub open spec fn days_of(state: TlsCertConfigState, now: i64) -> Option<int> {
    match state {
        TlsCertConfigState::Loaded(c) => if c.certs@.len() > 0 {
            days_remaining_of(c.certs@[0]@, now)
        } else {
            None
        },
        _ => None,
    }
}

/// Whether an info shows an entry at time `now`.
pub open spec fn shows(info: TlsCertificateInfo, entry: TlsCertConfigWithKey, now: i64) -> bool {
    &&& *info.config == entry.config
    &&& match info.days_remaining {
        Some(d) => days_of(entry.cert, now) == Some(d as int),
        None => days_of(entry.cert, now) is None,
    }
}

/// What a reload hands back: the certificates it dropped, marked discarded,
/// and the certificate sources of the file, to be loaded.
pub struct ReloadOutcome {
    pub discarded: Vec<(String, TlsCertConfigWithKey)>,
    pub to_load: Vec<TlsCertConfig>,
}

/// The certificate entries after the material of `id` has been loaded:
/// an entry still waiting becomes loaded, any other is left alone.
pub open spec fn finish_loading_spec(
    m: Map<Seq<char>, TlsCertConfigWithKey>,
    id: Seq<char>,
    loaded: LoadedCertificate,
) -> Map<Seq<char>, TlsCertConfigWithKey> {
    if m.contains_key(id) && m[id].cert is Loading {
        m.insert(id, TlsCertConfigWithKey { cert: TlsCertConfigState::Loaded(loaded), ..m[id] })
    } else {
        m
    }
}

/// The certificate entries after a run of loads finishes, in order.
pub open spec fn finish_all(
    m: Map<Seq<char>, TlsCertConfigWithKey>,
    loads: Seq<(Seq<char>, LoadedCertificate)>,
) -> Map<Seq<char>, TlsCertConfigWithKey>
    decreases loads.len(),
{
    if loads.len() == 0 {
        m
    } else {
        finish_loading_spec(finish_all(m, loads.drop_last()), loads.last().0, loads.last().1)
    }
}

/// Whatever order the background loads finish in, each waiting certificate
/// whose material was read ends up loaded, with its source and discarded
/// flag as they were; a certificate already loaded or failed is never
/// replaced; one whose material was never read stays waiting; and no
/// certificate comes or goes.
pub proof fn law_waiting_certificates_get_loaded(
    m: Map<Seq<char>, TlsCertConfigWithKey>,
    loads: Seq<(Seq<char>, LoadedCertificate)>,
)
    ensures
        finish_all(m, loads).dom() == m.dom(),
        forall|k: Seq<char>| #[trigger] m.contains_key(k) ==> {
            let r = finish_all(m, loads)[k];
            &&& r.config == m[k].config
            &&& r.discarded == m[k].discarded
            &&& !(m[k].cert is Loading) ==> r == m[k]
            &&& m[k].cert is Loading && (exists|i: int| 0 <= i < loads.len() && loads[i].0 == k) ==> r.cert is Loaded
            &&& (forall|i: int| 0 <= i < loads.len() ==> loads[i].0 != k) ==> r == m[k]
        },
    decreases loads.len(),
{
    if loads.len() > 0 {
        let p = loads.drop_last();
        law_waiting_certificates_get_loaded(m, p);
        let before = finish_all(m, p);
        let last = loads.last();
        assert(finish_all(m, loads) == finish_loading_spec(before, last.0, last.1));
        if before.contains_key(last.0) && before[last.0].cert is Loading {
            assert(finish_all(m, loads).dom() =~= before.dom());
        }
        assert forall|k: Seq<char>| #[trigger] m.contains_key(k) implies {
            let r = finish_all(m, loads)[k];
            &&& r.config == m[k].config
            &&& r.discarded == m[k].discarded
            &&& !(m[k].cert is Loading) ==> r == m[k]
            &&& m[k].cert is Loading && (exists|i: int| 0 <= i < loads.len() && loads[i].0 == k) ==> r.cert is Loaded
            &&& (forall|i: int| 0 <= i < loads.len() ==> loads[i].0 != k) ==> r == m[k]
        } by {
            let r = finish_all(m, loads)[k];
            assert(before.contains_key(k));
            if k == last.0 && before[k].cert is Loading {
                assert(r == TlsCertConfigWithKey { cert: TlsCertConfigState::Loaded(last.1), ..before[k] });
            } else {
                assert(r == before[k]);
            }
            if exists|i: int| 0 <= i < loads.len() && loads[i].0 == k {
                let i = choose|i: int| 0 <= i < loads.len() && loads[i].0 == k;
                if i < p.len() {
                    assert(p[i].0 == k);
                }
            }
            if forall|i: int| 0 <= i < loads.len() ==> loads[i].0 != k {
                assert forall|i: int| 0 <= i < p.len() implies p[i].0 != k by {
                    assert(loads[i].0 != k);
                }
                assert(loads[loads.len() - 1].0 != k);
            }
        }
    }
}

/// A certificate entry marked discarded, all else as it was.
pub open spec fn marked_discarded(e: TlsCertConfigWithKey) -> TlsCertConfigWithKey {
    TlsCertConfigWithKey { discarded: true, ..e }
}

/// The certificate entries of a map, each marked discarded.
pub open spec fn all_marked(m: Map<Seq<char>, TlsCertConfigWithKey>) -> Map<Seq<char>, TlsCertConfigWithKey> {
    m.map_values(|e: TlsCertConfigWithKey| marked_discarded(e))
}

/// Marks each dropped certificate entry discarded, keeping their order.
fn mark_all_discarded(removed: Vec<(String, TlsCertConfigWithKey)>) -> (out: Vec<(String, TlsCertConfigWithKey)>)
    ensures
        out@.len() == removed@.len(),
        forall|i: int|
            0 <= i < removed@.len() ==> (#[trigger] out@[i]).0@ == removed@[i].0@ && out@[i].1 == marked_discarded(
                removed@[i].1,
            ),
{
    let ghost r0 = removed@;
    let n = removed.len();
    let mut out: Vec<(String, TlsCertConfigWithKey)> = Vec::new();
    let mut rest = removed;
    let mut k: usize = 0;
    while rest.len() > 0
        invariant
            n == r0.len(),
            k <= n,
            rest@ == r0.subrange(k as int, n as int),
            out@.len() == k,
            forall|i: int| 0 <= i < k ==> (#[trigger] out@[i]).0@ == r0[i].0@ && out@[i].1 == marked_discarded(r0[i].1),
        decreases rest.len(),
    {
        let (key, e) = rest.remove(0);
        out.push((key, TlsCertConfigWithKey { config: e.config, cert: e.cert, discarded: true }));
        proof {
            assert(r0.subrange(k as int, n as int)[0] == r0[k as int]);
            assert(r0.subrange(k + 1, n as int) =~= r0.subrange(k as int, n as int).drop_first());
        }
        k = k + 1;
    }
    out
}

/// Where `removed` lists the entries dropped from `m`, the same list with
/// each entry marked lists the entries dropped from `m` marked.
proof fn lemma_marked_lists_dropped(
    removed: Seq<(String, TlsCertConfigWithKey)>,
    out: Seq<(String, TlsCertConfigWithKey)>,
    m: Map<Seq<char>, TlsCertConfigWithKey>,
    keep: Seq<Seq<char>>,
)
    requires
        lists_dropped(owned_pairs(removed), m, keep),
        out.len() == removed.len(),
        forall|i: int| 0 <= i < removed.len() ==> (#[trigger] out[i]).0@ == removed[i].0@ && out[i].1 == marked_discarded(removed[i].1),
    ensures
        lists_dropped(owned_pairs(out), all_marked(m), keep),
{
    let r = owned_pairs(removed);
    let o = owned_pairs(out);
    assert forall|i: int| 0 <= i < o.len() implies o[i].0 == r[i].0 && o[i].1 == marked_discarded(r[i].1) by {
        assert(out[i].0@ == removed[i].0@);
    }
    assert forall|i: int, j: int| 0 <= i < j < o.len() implies #[trigger] o[i].0 != #[trigger] o[j].0 by {
        assert(r[i].0 != r[j].0);
    }
    assert forall|i: int| 0 <= i < o.len() implies all_marked(m).contains_key(#[trigger] o[i].0) && !keep.contains(o[i].0)
        && o[i].1 == all_marked(m)[o[i].0] by {
        assert(m.contains_key(r[i].0));
    }
    assert forall|q: Seq<char>| #[trigger] all_marked(m).contains_key(q) && !keep.contains(q) implies exists|i: int|
        0 <= i < o.len() && #[trigger] o[i].0 == q by {
        assert(m.contains_key(q));
        let i = choose|i: int| 0 <= i < r.len() && #[trigger] r[i].0 == q;
        assert(o[i].0 == q);
    }
}

impl FullConfig {
    /// The state that control commands read and change.
    pub open spec fn model(&self) -> ProxyModel {
        ProxyModel {
            hosts: self.hosts.map(),
            certificates: self.certificates.map(),
            challenges: self.active_challenges.map(),
        }
    }

    /// The parts of the configuration that control commands leave alone.
    pub open spec fn settings_same(&self, other: &FullConfig) -> bool {
        &&& self.listen_port == other.listen_port
        &&& self.listen_port_tls == other.listen_port_tls
        &&& self.outpost_listen_port == other.outpost_listen_port
        &&& self.outposts == other.outposts
        &&& self.transports == other.transports
    }

    /// Whether some host answers for the domain.
    pub fn domain_used(&self, d: &String) -> (b: bool)
        ensures
            b == domain_in_use(self.hosts.map(), d@),
    {
        self.hosts.pairs_agree();
        let n = self.hosts.len();
        let mut j: usize = 0;
        while j < n
            invariant
                n == self.hosts.pairs().len(),
                j <= n,
                forall|a: int| 0 <= a < self.hosts.pairs().len() ==> self.hosts.map().contains_key(#[trigger] self.hosts.pairs()[a].0)
                    && self.hosts.map()[self.hosts.pairs()[a].0] == self.hosts.pairs()[a].1,
                forall|k: Seq<char>|
                    #[trigger] self.hosts.map().contains_key(k) ==> exists|a: int|
                        0 <= a < self.hosts.pairs().len() && #[trigger] self.hosts.pairs()[a].0 == k,
                forall|a: int| 0 <= a < j ==> !(#[trigger] self.hosts.pairs()[a].1.domain_views().contains(d@)),
            decreases n - j,
        {
            let (key, host) = self.hosts.entry_at(j);
            let m = host.domains.len();
            let mut l: usize = 0;
            while l < m
                invariant
                    m == host.domains@.len(),
                    l <= m,
                    self.hosts.map().contains_key(key@),
                    self.hosts.map()[key@] == *host,
                    forall|b: int| 0 <= b < l ==> host.domains@[b]@ != d@,
                decreases m - l,
            {
                if host.domains[l] == *d {
                    proof {
                        assert(host.domain_views()[l as int] == d@);
                        assert(self.hosts.map()[key@].domain_views().contains(d@));
                        assert(self.hosts.map().contains_key(key@) && (self.hosts.map()[key@].domain_views()).contains(d@));
                    }
                    return true;
                }
                l = l + 1;
            }
            proof {
                assert(!host.domain_views().contains(d@)) by {
                    if host.domain_views().contains(d@) {
                        let b = choose|b: int| 0 <= b < host.domain_views().len() && #[trigger] host.domain_views()[b] == d@;
                        assert(host.domains@[b]@ == d@);
                    }
                }
            }
            j = j + 1;
        }
        proof {
            assert forall|k: Seq<char>| self.hosts.map().contains_key(k) implies !(#[trigger] self.hosts.map()[k].domain_views()).contains(d@) by {
                let a = choose|a: int| 0 <= a < self.hosts.pairs().len() && #[trigger] self.hosts.pairs()[a].0 == k;
            }
        }
        false
    }

    /// Adds a host under the identifier, unless one of its domains is
    /// already served by a host.
    pub fn add_host(&mut self, id: String, host: HostConfig) -> (r: Result<(), ControlError>)
        ensures
            (final(self).model(), r) == add_host_spec(old(self).model(), id@, host),
            final(self).settings_same(old(self)),
    {
        let n = host.domains.len();
        let mut i: usize = 0;
        while i < n
            invariant
                n == host.domains@.len(),
                i <= n,
                forall|a: int| 0 <= a < i ==> !domain_in_use(self.hosts.map(), #[trigger] host.domain_views()[a]),
            decreases n - i,
        {
            if self.domain_used(&host.domains[i]) {
                proof {
                    assert(domain_in_use(self.hosts.map(), host.domain_views()[i as int]));
                }
                return Err(ControlError::HostAlreadyExists);
            }
            i = i + 1;
        }
        self.hosts.insert(id, host);
        Ok(())
    }

    /// Replaces the present fields of the host under the identifier.
    pub fn update_host(&mut self, id: &str, partial: PartialHostConfig) -> (r: Result<(), ControlError>)
        ensures
            (final(self).model(), r) == update_host_spec(old(self).model(), id@, partial),
            final(self).settings_same(old(self)),
    {
        match self.hosts.remove(id) {
            Some(host) => {
                let mut host = host;
                host.apply_some(partial);
                self.hosts.insert(String::from_str(id), host);
                proof {
                    assert(self.hosts.map() =~= old(self).hosts.map().insert(id@, old(self).hosts.map()[id@].with_partial(partial)));
                }
                Ok(())
            },
            None => {
                assert(self.hosts.map() =~= old(self).hosts.map());
                Err(ControlError::HostNotFound)
            },
        }
    }

    /// Removes the host under the identifier.
    pub fn remove_host(&mut self, id: &str) -> (r: Result<(), ControlError>)
        ensures
            (final(self).model(), r) == remove_host_spec(old(self).model(), id@),
            final(self).settings_same(old(self)),
    {
        match self.hosts.remove(id) {
            Some(_) => Ok(()),
            None => {
                assert(self.hosts.map() =~= old(self).hosts.map());
                Err(ControlError::HostNotFound)
            },
        }
    }

    /// The host under the identifier.
    pub fn get_host(&self, id: &str) -> (r: Result<&HostConfig, ControlError>)
        ensures
            self.hosts.map().contains_key(id@) ==> (r matches Ok(h) && *h == self.hosts.map()[id@]),
            !self.hosts.map().contains_key(id@) ==> r matches Err(ControlError::HostNotFound),
    {
        match self.hosts.get(id) {
            Some(h) => Ok(h),
            None => Err(ControlError::HostNotFound),
        }
    }

    /// Records the HTTP-01 challenge answer for a domain.
    pub fn set_http_challenge(&mut self, domain: String, token: String, thumbprint: String) -> (r: Result<(), ControlError>)
        ensures
            (final(self).model(), r) == set_challenge_spec(old(self).model(), domain@, token, thumbprint),
            final(self).settings_same(old(self)),
    {
        self.active_challenges.insert(domain, (token, thumbprint));
        Ok(())
    }

    /// Forgets the HTTP-01 challenge of a domain, where its token matches.
    pub fn clear_http_challenge(&mut self, domain: &str, token: &str) -> (r: Result<(), ControlError>)
        ensures
            (final(self).model(), r) == clear_challenge_spec(old(self).model(), domain@, token@),
            final(self).settings_same(old(self)),
    {
        let matches = match self.active_challenges.get(domain) {
            Some(stored) => stored.0 == String::from_str(token),
            None => false,
        };
        if matches {
            self.active_challenges.remove(domain);
            Ok(())
        } else {
            Err(ControlError::HttpChallengeNotFound)
        }
    }

    /// Whether a certificate is known under the identifier.
    pub fn has_certificate(&self, id: &str) -> (b: bool)
        ensures
            b == self.certificates.map().contains_key(id@),
    {
        self.certificates.contains_key(id)
    }

    /// Adds a certificate under the identifier with the material read for it.
    pub fn add_certificate(
        &mut self,
        id: String,
        certificate: TlsCertConfig,
        material: Result<LoadedCertificate, CertificateLoadError>,
    ) -> (r: Result<(), ControlError>)
        ensures
            (final(self).model(), r) == add_certificate_spec(old(self).model(), id@, certificate, material),
            final(self).settings_same(old(self)),
    {
        if self.certificates.contains_key(id.as_str()) {
            return Err(ControlError::CertificateAlreadyExists);
        }
        match material {
            Err(_) => Err(ControlError::InvalidCertificate),
            Ok(l) => {
                self.certificates.insert(
                    id,
                    TlsCertConfigWithKey { config: certificate, cert: TlsCertConfigState::Loaded(l), discarded: false },
                );
                Ok(())
            },
        }
    }

    /// Takes every certificate whose identifier is not `id` out of the
    /// configuration, and hands them back marked discarded.
    pub fn remove_certificate(&mut self, id: &str) -> (r: Result<Vec<(String, TlsCertConfigWithKey)>, ControlError>)
        ensures
            (final(self).model(), match r { Ok(_) => Ok(()), Err(e) => Err(e) }) == remove_certificate_spec(old(self).model(), id@),
            final(self).settings_same(old(self)),
            r matches Ok(v) ==> lists_dropped(owned_pairs(v@), all_marked(old(self).certificates.map()), seq![id@]),
    {
        let keep = vec![String::from_str(id)];
        let ghost kv = keep@.map_values(|k: String| k@);
        assert(kv =~= seq![id@]);
        let removed = self.certificates.retain_keys(&keep);
        if removed.len() == 0 {
            proof {
                let m0 = old(self).certificates.map();
                assert(lists_dropped(owned_pairs(removed@), m0, kv));
                assert forall|k: Seq<char>| #[trigger] m0.contains_key(k) implies k == id@ by {
                    if k != id@ {
                        assert(!kv.contains(k));
                    }
                }
                assert(self.certificates.map() =~= m0) by {
                    assert forall|q: Seq<char>| m0.contains_key(q) implies kv.contains(q) by {
                        assert(kv[0] == q);
                    }
                }
            }
            return Err(ControlError::CertificateNotFound);
        }
        proof {
            let m0 = old(self).certificates.map();
            let q = owned_pairs(removed@)[0].0;
            assert(m0.contains_key(q) && !kv.contains(q));
            assert(q != id@) by {
                if q == id@ {
                    assert(kv[0] == q);
                }
            }
        }
        let ghost r0 = removed@;
        let out = mark_all_discarded(removed);
        proof {
            lemma_marked_lists_dropped(r0, out@, old(self).certificates.map(), kv);
        }
        Ok(out)
    }

    /// A certificate as the control socket shows it at time `now`.
    pub fn certificate_info(&self, id: &str, now: i64) -> (r: Result<TlsCertificateInfo<'_>, ControlError>)
        ensures
            self.certificates.map().contains_key(id@) ==> (r matches Ok(info) && shows(info, self.certificates.map()[id@], now)),
            !self.certificates.map().contains_key(id@) ==> r matches Err(ControlError::CertificateNotFound),
    {
        match self.certificates.get(id) {
            Some(entry) => Ok(entry_info(entry, now)),
            None => Err(ControlError::CertificateNotFound),
        }
    }

    /// All certificates, in order, as the control socket shows them at `now`.
    pub fn certificate_infos(&self, now: i64) -> (v: Vec<(&String, TlsCertificateInfo<'_>)>)
        ensures
            v@.len() == self.certificates.pairs().len(),
            forall|i: int|
                0 <= i < v@.len() ==> (#[trigger] v@[i]).0@ == self.certificates.pairs()[i].0 && shows(
                    v@[i].1,
                    self.certificates.pairs()[i].1,
                    now,
                ),
    {
        let n = self.certificates.len();
        let mut v: Vec<(&String, TlsCertificateInfo<'_>)> = Vec::new();
        let mut i: usize = 0;
        while i < n
            invariant
                n == self.certificates.pairs().len(),
                i <= n,
                v@.len() == i,
                forall|a: int|
                    0 <= a < i ==> (#[trigger] v@[a]).0@ == self.certificates.pairs()[a].0 && shows(
                        v@[a].1,
                        self.certificates.pairs()[a].1,
                        now,
                    ),
            decreases n - i,
        {
            let (k, e) = self.certificates.entry_at(i);
            v.push((k, entry_info(e, now)));
            i = i + 1;
        }
        v
    }

    /// Records the material of a certificate that was waiting to be loaded;
    /// says whether there was such a certificate.
    pub fn finish_loading(&mut self, id: &str, loaded: LoadedCertificate) -> (done: bool)
        ensures
            done == (old(self).certificates.map().contains_key(id@) && old(self).certificates.map()[id@].cert is Loading),
            done ==> final(self).certificates.map() == old(self).certificates.map().insert(
                id@,
                TlsCertConfigWithKey { cert: TlsCertConfigState::Loaded(loaded), ..old(self).certificates.map()[id@] },
            ),
            !done ==> final(self).certificates.map() == old(self).certificates.map(),
            final(self).certificates.map() == finish_loading_spec(old(self).certificates.map(), id@, loaded),
            final(self).certificates.key_seq() == old(self).certificates.key_seq(),
            final(self).hosts == old(self).hosts,
            final(self).active_challenges == old(self).active_challenges,
            final(self).settings_same(old(self)),
    {
        let entry = match self.certificates.get(id) {
            Some(e) => match e.cert {
                TlsCertConfigState::Loading => {
                    TlsCertConfigWithKey { config: e.config.duplicate(), cert: TlsCertConfigState::Loaded(loaded), discarded: e.discarded }
                },
                _ => return false,
            },
            None => return false,
        };
        self.certificates.insert(String::from_str(id), entry);
        true
    }

    /// Takes a freshly read configuration file in place of everything but
    /// the certificates; drops the certificates the file no longer names and
    /// hands them back marked discarded, with the file's certificate sources
    /// to load.
    pub fn reload(&mut self, cfg: Config) -> (out: ReloadOutcome)
        ensures
            final(self).listen_port == cfg.listen_port,
            final(self).listen_port_tls == cfg.listen_port_tls,
            final(self).outpost_listen_port == cfg.outpost_listen_port,
            final(self).hosts == cfg.hosts,
            final(self).outposts == cfg.outposts,
            final(self).transports == cfg.transports,
            final(self).active_challenges.map() == Map::<Seq<char>, (String, String)>::empty(),
            final(self).certificates.map() == restricted_to(
                old(self).certificates.map(),
                cfg.certificates@.map_values(|c: TlsCertConfig| c.id_view()),
            ),
            out.to_load@ == cfg.certificates@,
            lists_dropped(
                owned_pairs(out.discarded@),
                all_marked(old(self).certificates.map()),
                cfg.certificates@.map_values(|c: TlsCertConfig| c.id_view()),
            ),
    {
        let n = cfg.certificates.len();
        let mut ids: Vec<String> = Vec::new();
        let mut to_load: Vec<TlsCertConfig> = Vec::new();
        let mut i: usize = 0;
        while i < n
            invariant
                n == cfg.certificates@.len(),
                i <= n,
                ids@.map_values(|k: String| k@) == cfg.certificates@.subrange(0, i as int).map_values(
                    |c: TlsCertConfig| c.id_view(),
                ),
                to_load@ == cfg.certificates@.subrange(0, i as int),
            decreases n - i,
        {
            let c = &cfg.certificates[i];
            let ghost prev = ids@.map_values(|k: String| k@);
            let k = c.id().clone();
            ids.push(k);
            to_load.push(c.duplicate());
            proof {
                assert(ids@.map_values(|k: String| k@) =~= prev.push(k@));
                assert(cfg.certificates@.subrange(0, i + 1).map_values(|c: TlsCertConfig| c.id_view())
                    =~= cfg.certificates@.subrange(0, i as int).map_values(|c: TlsCertConfig| c.id_view()).push(c.id_view()));
                assert(ids@.map_values(|k: String| k@) =~= cfg.certificates@.subrange(0, i + 1).map_values(
                    |c: TlsCertConfig| c.id_view(),
                ));
                assert(to_load@ =~= cfg.certificates@.subrange(0, i + 1));
            }
            i = i + 1;
        }
        proof {
            assert(cfg.certificates@.subrange(0, n as int) =~= cfg.certificates@);
        }
        let fresh = FullConfig::from_config(cfg);
        let removed = self.certificates.retain_keys(&ids);
        self.listen_port = fresh.listen_port;
        self.listen_port_tls = fresh.listen_port_tls;
        self.outpost_listen_port = fresh.outpost_listen_port;
        self.hosts = fresh.hosts;
        self.outposts = fresh.outposts;
        self.transports = fresh.transports;
        self.active_challenges = fresh.active_challenges;
        let ghost r0 = removed@;
        let discarded = mark_all_discarded(removed);
        proof {
            lemma_marked_lists_dropped(r0, discarded@, old(self).certificates.map(), ids@.map_values(|k: String| k@));
        }
        ReloadOutcome { discarded, to_load }
    }

    /// Carries out a control command as far as it needs no file work, and
    /// says what the caller does next.
    pub fn process_command(&mut self, command: ControlCommand) -> (a: ProxyAction)
        ensures
            final(self).settings_same(old(self)),
            match command {
                ControlCommand::AddHost { id, host } => {
                    let (m, r) = add_host_spec(old(self).model(), id@, host);
                    final(self).model() == m && a == change_action(r)
                },
                ControlCommand::UpdateHost { id, host } => {
                    let (m, r) = update_host_spec(old(self).model(), id@, host);
                    final(self).model() == m && a == change_action(r)
                },
                ControlCommand::RemoveHost { id } => {
                    let (m, r) = remove_host_spec(old(self).model(), id@);
                    final(self).model() == m && a == change_action(r)
                },
                ControlCommand::SetHttpChallenge { domain, token, thumbprint } => {
                    let (m, r) = set_challenge_spec(old(self).model(), domain@, token, thumbprint);
                    final(self).model() == m && a == ProxyAction::Respond(r)
                },
                ControlCommand::ClearHttpChallenge { domain, token } => {
                    let (m, r) = clear_challenge_spec(old(self).model(), domain@, token@);
                    final(self).model() == m && a == ProxyAction::Respond(r)
                },
                ControlCommand::RemoveCertificate { id } => {
                    let (m, r) = remove_certificate_spec(old(self).model(), id@);
                    final(self).model() == m && a == change_action(r)
                },
                ControlCommand::AddCertificate { id, certificate } => {
                    &&& final(self).model() == old(self).model()
                    &&& if old(self).model().certificates.contains_key(id@) {
                        a == ProxyAction::Respond(Err(ControlError::CertificateAlreadyExists))
                    } else {
                        a == ProxyAction::ReadCertificate { id, certificate }
                    }
                },
                ControlCommand::ListHosts => final(self).model() == old(self).model() && a == ProxyAction::ShowHosts,
                ControlCommand::GetHost { id } => final(self).model() == old(self).model() && a == ProxyAction::ShowHost(id),
                ControlCommand::ListCertificates => final(self).model() == old(self).model() && a == ProxyAction::ShowCertificates,
                ControlCommand::GetCertificate { id } => final(self).model() == old(self).model() && a == ProxyAction::ShowCertificate(id),
                ControlCommand::Reload => final(self).model() == old(self).model() && a == ProxyAction::Reload,
            },
    {
        match command {
            ControlCommand::AddHost { id, host } => match self.add_host(id, host) {
                Ok(()) => ProxyAction::Save,
                Err(e) => ProxyAction::Respond(Err(e)),
            },
            ControlCommand::UpdateHost { id, host } => match self.update_host(id.as_str(), host) {
                Ok(()) => ProxyAction::Save,
                Err(e) => ProxyAction::Respond(Err(e)),
            },
            ControlCommand::RemoveHost { id } => match self.remove_host(id.as_str()) {
                Ok(()) => ProxyAction::Save,
                Err(e) => ProxyAction::Respond(Err(e)),
            },
            ControlCommand::SetHttpChallenge { domain, token, thumbprint } => ProxyAction::Respond(
                self.set_http_challenge(domain, token, thumbprint),
            ),
            ControlCommand::ClearHttpChallenge { domain, token } => ProxyAction::Respond(
                self.clear_http_challenge(domain.as_str(), token.as_str()),
            ),
            ControlCommand::RemoveCertificate { id } => match self.remove_certificate(id.as_str()) {
                Ok(_) => ProxyAction::Save,
                Err(e) => ProxyAction::Respond(Err(e)),
            },
            ControlCommand::AddCertificate { id, certificate } => {
                if self.has_certificate(id.as_str()) {
                    ProxyAction::Respond(Err(ControlError::CertificateAlreadyExists))
                } else {
                    ProxyAction::ReadCertificate { id, certificate }
                }
            },
            ControlCommand::ListHosts => ProxyAction::ShowHosts,
            ControlCommand::GetHost { id } => ProxyAction::ShowHost(id),
            ControlCommand::ListCertificates => ProxyAction::ShowCertificates,
            ControlCommand::GetCertificate { id } => ProxyAction::ShowCertificate(id),
            ControlCommand::Reload => ProxyAction::Reload,
        }
    }
}

/// The info of a certificate entry at time `now`.
fn entry_info(entry: &TlsCertConfigWithKey, now: i64) -> (info: TlsCertificateInfo<'_>)
    ensures
        shows(info, *entry, now),
{
    let days = match &entry.cert {
        TlsCertConfigState::Loaded(c) => if c.certs.len() > 0 {
            get_expiration(c.certs[0].as_slice(), now)
        } else {
            None
        },
        _ => None,
    };
    TlsCertificateInfo { config: &entry.config, days_remaining: days }
}

} // verus!

verus! {

/// No two hosts answer for the same domain.
pub open spec fn domains_disjoint(hosts: Map<Seq<char>, HostConfig>) -> bool {
    forall|k1: Seq<char>, k2: Seq<char>, d: Seq<char>|
        hosts.contains_key(k1) && hosts.contains_key(k2) && k1 != k2 && #[trigger] hosts[k1].domain_views().contains(d)
            ==> !#[trigger] hosts[k2].domain_views().contains(d)
}

/// A challenge that was just set is cleared by its own token, which leaves
/// the domain with no challenge and the rest as it was.
pub proof fn law_set_then_clear_challenge(m: ProxyModel, domain: Seq<char>, token: String, thumbprint: String)
    ensures
        ({
            let (m1, r1) = set_challenge_spec(m, domain, token, thumbprint);
            let (m2, r2) = clear_challenge_spec(m1, domain, token@);
            &&& r1 is Ok
            &&& r2 is Ok
            &&& m2.challenges == m.challenges.remove(domain)
            &&& m2.hosts == m.hosts
            &&& m2.certificates == m.certificates
        }),
{
    let (m1, _) = set_challenge_spec(m, domain, token, thumbprint);
    assert(m1.challenges.remove(domain) =~= m.challenges.remove(domain));
}

/// Clearing a challenge with a token other than the one stored for the
/// domain is refused and changes nothing.
pub proof fn law_clear_with_wrong_token(m: ProxyModel, domain: Seq<char>, token: Seq<char>)
    requires
        !(m.challenges.contains_key(domain) && m.challenges[domain].0@ == token),
    ensures
        clear_challenge_spec(m, domain, token) == (m, Err::<(), ControlError>(ControlError::HttpChallengeNotFound)),
{
}

/// A host is accepted exactly when none of its domains is served yet; an
/// accepted host is then found under its identifier, and a refused one
/// changes nothing.
pub proof fn law_added_host_is_found(m: ProxyModel, id: Seq<char>, host: HostConfig)
    ensures
        ({
            let (m1, r) = add_host_spec(m, id, host);
            &&& r is Ok <==> !conflicts(m.hosts, host)
            &&& r is Ok ==> m1.hosts.contains_key(id) && m1.hosts[id] == host
            &&& r is Err ==> m1 == m
        }),
{
}

/// Adding hosts keeps every domain served by at most one host.
pub proof fn law_add_host_keeps_domains_disjoint(m: ProxyModel, id: Seq<char>, host: HostConfig)
    requires
        domains_disjoint(m.hosts),
    ensures
        domains_disjoint(add_host_spec(m, id, host).0.hosts),
{
    if !conflicts(m.hosts, host) {
        let h = m.hosts.insert(id, host);
        assert forall|k1: Seq<char>, k2: Seq<char>, d: Seq<char>|
            h.contains_key(k1) && h.contains_key(k2) && k1 != k2 && #[trigger] h[k1].domain_views().contains(d)
                implies !#[trigger] h[k2].domain_views().contains(d) by {
            if h[k2].domain_views().contains(d) {
                if k1 == id {
                    let i = choose|i: int| 0 <= i < host.domain_views().len() && #[trigger] host.domain_views()[i] == d;
                    assert(m.hosts.contains_key(k2) && (m.hosts[k2].domain_views()).contains(host.domain_views()[i]));
                    assert(domain_in_use(m.hosts, host.domain_views()[i]));
                } else if k2 == id {
                    let i = choose|i: int| 0 <= i < host.domain_views().len() && #[trigger] host.domain_views()[i] == d;
                    assert(m.hosts.contains_key(k1) && (m.hosts[k1].domain_views()).contains(host.domain_views()[i]));
                    assert(domain_in_use(m.hosts, host.domain_views()[i]));
                } else {
                    assert(m.hosts[k1].domain_views().contains(d));
                }
            }
        }
    }
}

/// Updating a known host replaces only the fields the update holds; an
/// unknown host is refused and nothing changes.
pub proof fn law_update_host(m: ProxyModel, id: Seq<char>, partial: PartialHostConfig)
    ensures
        ({
            let (m1, r) = update_host_spec(m, id, partial);
            &&& r is Ok <==> m.hosts.contains_key(id)
            &&& r is Ok ==> m1.hosts[id] == m.hosts[id].with_partial(partial) && m1.hosts.dom() == m.hosts.dom()
            &&& r is Err ==> m1 == m
        }),
{
    let (m1, r) = update_host_spec(m, id, partial);
    if r is Ok {
        assert(m1.hosts.dom() =~= m.hosts.dom());
    }
}

/// A successful update of a host replaces each field the partial holds with
/// the partial's value and keeps each field it leaves out; the other hosts
/// stay as they were.
pub proof fn law_update_replaces_present_fields(m: ProxyModel, id: Seq<char>, partial: PartialHostConfig)
    ensures
        ({
            let (m1, r) = update_host_spec(m, id, partial);
            r is Ok ==> {
                &&& (partial.upstream matches Some(u) ==> m1.hosts[id].upstream == u)
                &&& (partial.upstream is None ==> m1.hosts[id].upstream == m.hosts[id].upstream)
                &&& (partial.domains matches Some(d) ==> m1.hosts[id].domains == d)
                &&& (partial.domains is None ==> m1.hosts[id].domains == m.hosts[id].domains)
                &&& forall|k: Seq<char>| k != id && #[trigger] m.hosts.contains_key(k) ==> m1.hosts[k] == m.hosts[k]
            }
        }),
{
}

/// The days shown for a certificate are those of the first certificate of
/// its chain, the leaf: for a loaded certificate with a non-empty chain
/// they are the whole days left before the leaf expires; nothing is shown
/// for a certificate not loaded or with an empty chain.
pub proof fn law_days_shown_are_the_leafs(info: TlsCertificateInfo, entry: TlsCertConfigWithKey, now: i64)
    requires
        shows(info, entry, now),
    ensures
        *info.config == entry.config,
        entry.cert matches TlsCertConfigState::Loaded(c) ==> c.certs@.len() > 0 ==> match info.days_remaining {
            Some(d) => days_remaining_of(c.certs@.first()@, now) == Some(d as int),
            None => days_remaining_of(c.certs@.first()@, now) is None,
        },
        !(entry.cert matches TlsCertConfigState::Loaded(c) && c.certs@.len() > 0) ==> info.days_remaining is None,
{
}

/// After a host is removed it is no longer found; removing an unknown host
/// is refused.
pub proof fn law_removed_host_is_gone(m: ProxyModel, id: Seq<char>)
    ensures
        ({
            let (m1, r) = remove_host_spec(m, id);
            &&& !m1.hosts.contains_key(id)
            &&& r is Ok <==> m.hosts.contains_key(id)
        }),
{
}

/// A certificate identifier can be added once: adding under it again is
/// refused, whatever material comes with it.
pub proof fn law_certificate_added_once(
    m: ProxyModel,
    id: Seq<char>,
    first: TlsCertConfig,
    material: LoadedCertificate,
    second: TlsCertConfig,
    again: Result<LoadedCertificate, CertificateLoadError>,
)
    ensures
        ({
            let (m1, r1) = add_certificate_spec(m, id, first, Ok(material));
            let (m2, r2) = add_certificate_spec(m1, id, second, again);
            &&& m1.certificates.contains_key(id)
            &&& r2 == Err::<(), ControlError>(ControlError::CertificateAlreadyExists)
            &&& m2 == m1
        }),
{
}

/// Removing a certificate leaves at most the certificate with that
/// identifier, unchanged.
pub proof fn law_remove_certificate_keeps_only(m: ProxyModel, id: Seq<char>)
    ensures
        ({
            let (m1, r) = remove_certificate_spec(m, id);
            &&& forall|k: Seq<char>| #[trigger] m1.certificates.contains_key(k) ==> k == id
            &&& m.certificates.contains_key(id) ==> m1.certificates.contains_key(id) && m1.certificates[id] == m.certificates[id]
            &&& m1.hosts == m.hosts
            &&& m1.challenges == m.challenges
        }),
{
    let (m1, r) = remove_certificate_spec(m, id);
    if r is Ok {
        assert forall|k: Seq<char>| #[trigger] m1.certificates.contains_key(k) implies k == id by {
            let s: Seq<Seq<char>> = seq![id];
            assert(s.contains(k));
            let j = choose|j: int| 0 <= j < s.len() && s[j] == k;
            assert(s[j] == id);
        }
        if m.certificates.contains_key(id) {
            let s: Seq<Seq<char>> = seq![id];
            assert(s[0] == id);
            assert(s.contains(id));
        }
    }
}

} // verus!
