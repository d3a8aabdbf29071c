//! The proxy's configuration: the file form (`Config`) and the live form
//! (`FullConfig`) that also tracks loaded certificates and active HTTP
//! challenges.
use vstd::prelude::*;
use crate::certificates::LoadedCertificate;
use crate::keyed_map::{keys_distinct, lemma_map_of_absent, lemma_map_of_index, lemma_map_of_push, map_of, KeyedMap};
use crate::radiance_types::{copy_servers, HostConfig, ServerConfig, TlsCertConfig};
use crate::text::{decimal, u16_to_decimal};

verus! {

/// The kind of a raw transport.
#[derive(Clone, Copy, Debug)]
pub enum TransportType {
    Tcp,
    Udp,
}

/// A raw TCP or UDP forwarder: where it listens and where it forwards.
#[derive(Clone, Debug)]
pub struct TransportConfig {
    pub transport_type: TransportType,
    pub listen_address: String,
    pub upstreams: Vec<ServerConfig>,
}

/// An outpost that may connect to the proxy.
#[derive(Clone, Debug)]
pub struct OutpostConfig {
    pub shared_secret: String,
}

impl TransportConfig {
    /// Whether two transports are of the same kind, listen at the same
    /// address and forward to the same servers.
    pub open spec fn same_as(&self, other: TransportConfig) -> bool {
        self.transport_type == other.transport_type && self.listen_address@ == other.listen_address@
            && self.upstreams@ == other.upstreams@
    }

    /// A copy of the transport.
    pub fn duplicate(&self) -> (r: TransportConfig)
        ensures
            r.same_as(*self),
    {
        TransportConfig {
            transport_type: self.transport_type,
            listen_address: self.listen_address.clone(),
            upstreams: copy_servers(&self.upstreams),
        }
    }
}

impl OutpostConfig {
    /// A copy of the outpost.
    pub fn duplicate(&self) -> (r: OutpostConfig)
        ensures
            r == *self,
    {
        OutpostConfig { shared_secret: self.shared_secret.clone() }
    }
}

/// The proxy's configuration as the file holds it.
pub struct Config {
    pub listen_port: u16,
    pub listen_port_tls: Option<u16>,
    pub outpost_listen_port: Option<u16>,
    pub hosts: KeyedMap<HostConfig>,
    pub certificates: Vec<TlsCertConfig>,
    pub outposts: Option<KeyedMap<OutpostConfig>>,
    pub transports: Option<KeyedMap<TransportConfig>>,
}

/// How far the loading of a certificate has come.
#[derive(Clone, Debug)]
pub enum TlsCertConfigState {
    Loading,
    Loaded(LoadedCertificate),
    Failed,
}

/// A certificate source together with what has been loaded from it.
#[derive(Clone, Debug)]
pub struct TlsCertConfigWithKey {
    pub config: TlsCertConfig,
    pub cert: TlsCertConfigState,
    pub discarded: bool,
}

/// The proxy's live configuration: hosts and certificates by identifier,
/// and the active HTTP-01 challenges by domain, as (token, thumbprint).
pub struct FullConfig {
    pub listen_port: u16,
    pub listen_port_tls: Option<u16>,
    pub outpost_listen_port: Option<u16>,
    pub hosts: KeyedMap<HostConfig>,
    pub certificates: KeyedMap<TlsCertConfigWithKey>,
    pub outposts: Option<KeyedMap<OutpostConfig>>,
    pub transports: Option<KeyedMap<TransportConfig>>,
    pub active_challenges: KeyedMap<(String, String)>,
}

/// The entry of a certificate source that has not been loaded yet.
pub open spec fn loading_entry(c: TlsCertConfig) -> TlsCertConfigWithKey {
    TlsCertConfigWithKey { config: c, cert: TlsCertConfigState::Loading, discarded: false }
}

/// The certificates of a configuration file by identifier, each waiting to
/// be loaded; where two sources share an identifier the later one stays.
pub open spec fn loading_entries(s: Seq<TlsCertConfig>) -> Map<Seq<char>, TlsCertConfigWithKey>
    decreases s.len(),
{
    if s.len() == 0 {
        Map::empty()
    } else {
        loading_entries(s.drop_last()).insert(s.last().id_view(), loading_entry(s.last()))
    }
}

/// The identifiers of certificate sources, in order, each the first time it
/// comes: the order in which the live configuration keeps them.
pub open spec fn first_ids(s: Seq<TlsCertConfig>) -> Seq<Seq<char>>
    decreases s.len(),
{
    if s.len() == 0 {
        Seq::empty()
    } else {
        let p = first_ids(s.drop_last());
        if p.contains(s.last().id_view()) {
            p
        } else {
            p.push(s.last().id_view())
        }
    }
}

/// Whether no two certificate sources share an identifier.
pub open spec fn ids_distinct(s: Seq<TlsCertConfig>) -> bool {
    forall|i: int, j: int| 0 <= i < j < s.len() ==> #[trigger] s[i].id_view() != #[trigger] s[j].id_view()
}

/// The address the proxy listens on for a port: all interfaces.
pub open spec fn any_interface(port: u16) -> Seq<char> {
    "0.0.0.0:"@ + decimal(port as nat)
}

/// The address the outpost listener uses for a port: the loopback interface.
pub open spec fn loopback(port: u16) -> Seq<char> {
    "127.0.0.1:"@ + decimal(port as nat)
}

/// The certificate sources of live certificate entries, in order.
pub open spec fn saved_certificates(entries: Seq<(Seq<char>, TlsCertConfigWithKey)>) -> Seq<TlsCertConfig> {
    entries.map_values(|e: (Seq<char>, TlsCertConfigWithKey)| e.1.config)
}

/// Whether two maps of hosts hold the same identifiers, each for the same host.
pub open spec fn same_hosts(a: Map<Seq<char>, HostConfig>, b: Map<Seq<char>, HostConfig>) -> bool {
    a.dom() == b.dom() && forall|k: Seq<char>| #[trigger] a.contains_key(k) ==> a[k].same_as(b[k])
}

/// Whether two maps of transports hold the same names, each for the same transport.
pub open spec fn same_transports(a: Map<Seq<char>, TransportConfig>, b: Map<Seq<char>, TransportConfig>) -> bool {
    a.dom() == b.dom() && forall|k: Seq<char>| #[trigger] a.contains_key(k) ==> a[k].same_as(b[k])
}

/// Whether a live configuration is the one a configuration file gives, as
/// `from_config` makes it.
pub open spec fn loaded_from(full: FullConfig, cfg: Config) -> bool {
    &&& full.listen_port == cfg.listen_port
    &&& full.listen_port_tls == cfg.listen_port_tls
    &&& full.outpost_listen_port == cfg.outpost_listen_port
    &&& full.hosts == cfg.hosts
    &&& full.certificates.map() == loading_entries(cfg.certificates@)
    &&& full.certificates.key_seq() == first_ids(cfg.certificates@)
    &&& full.outposts == cfg.outposts
    &&& full.transports == cfg.transports
}

/// Whether a configuration file holds what a live configuration saves, as
/// `to_config` makes it.
pub open spec fn saved_as(cfg: Config, full: FullConfig) -> bool {
    &&& cfg.listen_port == full.listen_port
    &&& cfg.listen_port_tls == full.listen_port_tls
    &&& cfg.outpost_listen_port == full.outpost_listen_port
    &&& cfg.hosts.key_seq() == full.hosts.key_seq()
    &&& same_hosts(cfg.hosts.map(), full.hosts.map())
    &&& cfg.certificates@ == saved_certificates(full.certificates.pairs())
    &&& match full.outposts {
        None => cfg.outposts is None,
        Some(o) => cfg.outposts matches Some(c) && c.key_seq() == o.key_seq() && c.map() == o.map(),
    }
    &&& match full.transports {
        None => cfg.transports is None,
        Some(t) => cfg.transports matches Some(c) && c.key_seq() == t.key_seq() && same_transports(c.map(), t.map()),
    }
}

/// A key is in the map exactly where it is among the keys in order.
proof fn lemma_key_seq_contains<V>(m: &KeyedMap<V>, k: Seq<char>)
    ensures
        m.map().contains_key(k) <==> m.key_seq().contains(k),
{
    let p = m.pairs();
    if m.map().contains_key(k) {
        let i = choose|i: int| 0 <= i < p.len() && #[trigger] p[i].0 == k;
        assert(m.key_seq()[i] == k);
    }
    if m.key_seq().contains(k) {
        let i = choose|i: int| 0 <= i < m.key_seq().len() && m.key_seq()[i] == k;
        assert(p[i].0 == k);
    }
}

impl FullConfig {
    /// The live configuration of a configuration file: no certificate loaded
    /// yet and no challenge active.
    pub fn from_config(cfg: Config) -> (full: FullConfig)
        ensures
            full.listen_port == cfg.listen_port,
            full.listen_port_tls == cfg.listen_port_tls,
            full.outpost_listen_port == cfg.outpost_listen_port,
            full.hosts == cfg.hosts,
            full.certificates.map() == loading_entries(cfg.certificates@),
            full.certificates.key_seq() == first_ids(cfg.certificates@),
            full.outposts == cfg.outposts,
            full.transports == cfg.transports,
            full.active_challenges.map() == Map::<Seq<char>, (String, String)>::empty(),
            loaded_from(full, cfg),
    {
        let ghost all = cfg.certificates@;
        let mut rest = cfg.certificates;
        let total = rest.len();
        let mut certificates: KeyedMap<TlsCertConfigWithKey> = KeyedMap::new();
        let mut k: usize = 0;
        proof {
            assert(all.subrange(0, 0) =~= Seq::<TlsCertConfig>::empty());
            assert(all.subrange(0, all.len() as int) =~= all);
        }
        while rest.len() > 0
            invariant
                k <= all.len(),
                all.len() == total,
                rest@ == all.subrange(k as int, all.len() as int),
                certificates.map() == loading_entries(all.subrange(0, k as int)),
                certificates.key_seq() == first_ids(all.subrange(0, k as int)),
            decreases rest.len(),
        {
            let c = rest.remove(0);
            let id = c.id().clone();
            proof {
                lemma_key_seq_contains(&certificates, id@);
            }
            certificates.insert(
                id,
                TlsCertConfigWithKey { config: c, cert: TlsCertConfigState::Loading, discarded: false },
            );
            proof {
                assert(all.subrange(0, k + 1).drop_last() =~= all.subrange(0, k as int));
                assert(all.subrange(0, k + 1).last() == c);
                assert(all.subrange(k + 1, all.len() as int) =~= all.subrange(k as int, all.len() as int).drop_first());
            }
            k = k + 1;
        }
        proof {
            assert(all.subrange(0, k as int) =~= all);
        }
        FullConfig {
            listen_port: cfg.listen_port,
            listen_port_tls: cfg.listen_port_tls,
            outpost_listen_port: cfg.outpost_listen_port,
            hosts: cfg.hosts,
            certificates,
            outposts: cfg.outposts,
            transports: cfg.transports,
            active_challenges: KeyedMap::new(),
        }
    }

    /// The configuration file's form of the live configuration: its ports,
    /// hosts, outposts and transports, and the source of each certificate in
    /// order (what has been loaded and the active challenges are not kept).
    pub fn to_config(&self) -> (cfg: Config)
        ensures
            cfg.listen_port == self.listen_port,
            cfg.listen_port_tls == self.listen_port_tls,
            cfg.outpost_listen_port == self.outpost_listen_port,
            cfg.hosts.key_seq() == self.hosts.key_seq(),
            same_hosts(cfg.hosts.map(), self.hosts.map()),
            cfg.certificates@ == saved_certificates(self.certificates.pairs()),
            match self.outposts {
                None => cfg.outposts is None,
                Some(o) => cfg.outposts matches Some(c) && c.key_seq() == o.key_seq() && c.map() == o.map(),
            },
            match self.transports {
                None => cfg.transports is None,
                Some(t) => cfg.transports matches Some(c) && c.key_seq() == t.key_seq()
                    && same_transports(c.map(), t.map()),
            },
            saved_as(cfg, *self),
    {
        let hosts = self.hosts.copy_with(HostConfig::duplicate);
        let n = self.certificates.len();
        let mut certificates: Vec<TlsCertConfig> = Vec::new();
        let mut i: usize = 0;
        while i < n
            invariant
                n == self.certificates.pairs().len(),
                i <= n,
                certificates@ == saved_certificates(self.certificates.pairs()).subrange(0, i as int),
            decreases n - i,
        {
            let (_, entry) = self.certificates.entry_at(i);
            certificates.push(entry.config.duplicate());
            i = i + 1;
            assert(certificates@ =~= saved_certificates(self.certificates.pairs()).subrange(0, i as int));
        }
        assert(saved_certificates(self.certificates.pairs()).subrange(0, n as int) =~= saved_certificates(
            self.certificates.pairs(),
        ));
        let outposts = match &self.outposts {
            None => None,
            Some(o) => {
                let c = o.copy_with(OutpostConfig::duplicate);
                assert(c.map() =~= o.map());
                Some(c)
            },
        };
        let transports = match &self.transports {
            None => None,
            Some(t) => Some(t.copy_with(TransportConfig::duplicate)),
        };
        Config {
            listen_port: self.listen_port,
            listen_port_tls: self.listen_port_tls,
            outpost_listen_port: self.outpost_listen_port,
            hosts,
            certificates,
            outposts,
            transports,
        }
    }

    /// The plain-HTTP listening address.
    pub fn listen_address(&self) -> (a: String)
        ensures
            a@ == any_interface(self.listen_port),
    {
        String::from_str("0.0.0.0:").concat(u16_to_decimal(self.listen_port).as_str())
    }

    /// The TLS listening address, where a TLS port is set.
    pub fn listen_address_tls(&self) -> (a: Option<String>)
        ensures
            match self.listen_port_tls {
                Some(p) => a matches Some(s) && s@ == any_interface(p),
                None => a is None,
            },
    {
        match self.listen_port_tls {
            Some(port) => Some(String::from_str("0.0.0.0:").concat(u16_to_decimal(port).as_str())),
            None => None,
        }
    }

    /// The outpost listening address, where an outpost port is set.
    pub fn outpost_listen_address(&self) -> (a: Option<String>)
        ensures
            match self.outpost_listen_port {
                Some(p) => a matches Some(s) && s@ == loopback(p),
                None => a is None,
            },
    {
        match self.outpost_listen_port {
            Some(port) => Some(
                String::from_str("127.0.0.1:").concat(u16_to_decimal(port).as_str()),
            ),
            None => None,
        }
    }
}

/// Whether each certificate entry is kept under its source's own identifier.
pub open spec fn entries_keyed_by_id(entries: Seq<(Seq<char>, TlsCertConfigWithKey)>) -> bool {
    forall|i: int| 0 <= i < entries.len() ==> #[trigger] entries[i].0 == entries[i].1.config.id_view()
}

/// The certificate entries of the live configuration, as the configuration
/// file loaded back makes them: each source waiting to be loaded.
pub open spec fn reloaded_entries(m: Map<Seq<char>, TlsCertConfigWithKey>) -> Map<Seq<char>, TlsCertConfigWithKey> {
    m.map_values(|e: TlsCertConfigWithKey| loading_entry(e.config))
}

proof fn lemma_saved_certificates_load_back(entries: Seq<(Seq<char>, TlsCertConfigWithKey)>)
    requires
        keys_distinct(entries),
        entries_keyed_by_id(entries),
    ensures
        loading_entries(saved_certificates(entries)) == reloaded_entries(map_of(entries)),
    decreases entries.len(),
{
    if entries.len() == 0 {
        assert(saved_certificates(entries) =~= Seq::<TlsCertConfig>::empty());
        assert(map_of(entries) =~= Map::<Seq<char>, TlsCertConfigWithKey>::empty());
        assert(loading_entries(saved_certificates(entries)) =~= reloaded_entries(map_of(entries)));
    } else {
        let p = entries.drop_last();
        let last = entries.last();
        assert(keys_distinct(p));
        assert(entries_keyed_by_id(p));
        lemma_saved_certificates_load_back(p);
        assert(saved_certificates(entries).drop_last() =~= saved_certificates(p));
        assert(last.0 == last.1.config.id_view());
        assert forall|i: int| 0 <= i < p.len() implies #[trigger] p[i].0 != last.0 by {
            assert(entries[i].0 != entries[entries.len() - 1].0);
        }
        lemma_map_of_absent(p, last.0);
        lemma_map_of_push(p, last.0, last.1);
        assert(p.push(last) =~= entries);
        assert(reloaded_entries(map_of(p).insert(last.0, last.1)) =~= reloaded_entries(map_of(p)).insert(
            last.0,
            loading_entry(last.1.config),
        ));
    }
}

/// Whether each certificate entry of a map is kept under its source's own
/// identifier.
pub open spec fn certificates_keyed_by_id(m: Map<Seq<char>, TlsCertConfigWithKey>) -> bool {
    forall|k: Seq<char>| #[trigger] m.contains_key(k) ==> m[k].config.id_view() == k
}

/// The certificates of a loaded configuration file are each kept under
/// their source's own identifier.
pub proof fn law_loaded_certificates_keyed_by_id(sources: Seq<TlsCertConfig>)
    ensures
        certificates_keyed_by_id(loading_entries(sources)),
    decreases sources.len(),
{
    if sources.len() > 0 {
        law_loaded_certificates_keyed_by_id(sources.drop_last());
    }
}

/// Saving the live configuration and loading the file back gives each
/// certificate its source again, under the same identifier, waiting to be
/// loaded, and no other certificate; this holds where each certificate is
/// kept under its source's own identifier (one added under another
/// identifier comes back under its own).
pub proof fn law_saved_certificates_load_back(full: FullConfig)
    requires
        keys_distinct(full.certificates.pairs()),
        certificates_keyed_by_id(full.certificates.map()),
    ensures
        loading_entries(saved_certificates(full.certificates.pairs())) == reloaded_entries(full.certificates.map()),
{
    let s = full.certificates.pairs();
    assert forall|i: int| 0 <= i < s.len() implies #[trigger] s[i].0 == s[i].1.config.id_view() by {
        lemma_map_of_index(s, i);
    }
    lemma_saved_certificates_load_back(s);
}

proof fn lemma_first_ids_distinct(s: Seq<TlsCertConfig>)
    requires
        ids_distinct(s),
    ensures
        first_ids(s) == s.map_values(|c: TlsCertConfig| c.id_view()),
    decreases s.len(),
{
    if s.len() == 0 {
        assert(first_ids(s) =~= s.map_values(|c: TlsCertConfig| c.id_view()));
    } else {
        let p = s.drop_last();
        assert(ids_distinct(p));
        lemma_first_ids_distinct(p);
        let ids = p.map_values(|c: TlsCertConfig| c.id_view());
        if ids.contains(s.last().id_view()) {
            let i = choose|i: int| 0 <= i < ids.len() && ids[i] == s.last().id_view();
            assert(s[i].id_view() != s[s.len() - 1].id_view());
        }
        assert(ids.push(s.last().id_view()) =~= s.map_values(|c: TlsCertConfig| c.id_view()));
    }
}

proof fn lemma_loading_entries_at(s: Seq<TlsCertConfig>, i: int)
    requires
        ids_distinct(s),
        0 <= i < s.len(),
    ensures
        loading_entries(s).contains_key(s[i].id_view()),
        loading_entries(s)[s[i].id_view()] == loading_entry(s[i]),
    decreases s.len(),
{
    if i < s.len() - 1 {
        let p = s.drop_last();
        assert(ids_distinct(p));
        assert(p[i] == s[i]);
        lemma_loading_entries_at(p, i);
        assert(s[i].id_view() != s[s.len() - 1].id_view());
    }
}

/// A configuration file whose certificate sources have distinct
/// identifiers, loaded into the live configuration and saved again, gives
/// back the same sources in the same order (where two sources share an
/// identifier the live configuration keeps one, the later, at the place of
/// the first).
pub proof fn law_certificates_round_trip(full: FullConfig, sources: Seq<TlsCertConfig>)
    requires
        keys_distinct(full.certificates.pairs()),
        full.certificates.map() == loading_entries(sources),
        full.certificates.key_seq() == first_ids(sources),
        ids_distinct(sources),
    ensures
        saved_certificates(full.certificates.pairs()) == sources,
{
    let p = full.certificates.pairs();
    lemma_first_ids_distinct(sources);
    assert(p.len() == full.certificates.key_seq().len());
    assert forall|i: int| 0 <= i < sources.len() implies saved_certificates(p)[i] == sources[i] by {
        assert(full.certificates.key_seq()[i] == p[i].0);
        assert(p[i].0 == sources[i].id_view());
        lemma_map_of_index(p, i);
        lemma_loading_entries_at(sources, i);
    }
    assert(saved_certificates(p) =~= sources);
}

/// A configuration file whose certificate sources have distinct
/// identifiers, loaded into the live configuration and saved again, comes
/// back field by field: the same ports, the same hosts under the same
/// identifiers in the same order (each with the same domains and servers),
/// the same certificate sources in the same order, the same outposts and
/// the same transports.
pub proof fn law_config_round_trip(cfg: Config, full: FullConfig, back: Config)
    requires
        keys_distinct(full.certificates.pairs()),
        ids_distinct(cfg.certificates@),
        loaded_from(full, cfg),
        saved_as(back, full),
    ensures
        back.listen_port == cfg.listen_port,
        back.listen_port_tls == cfg.listen_port_tls,
        back.outpost_listen_port == cfg.outpost_listen_port,
        back.hosts.key_seq() == cfg.hosts.key_seq(),
        same_hosts(back.hosts.map(), cfg.hosts.map()),
        back.certificates@ == cfg.certificates@,
        match cfg.outposts {
            None => back.outposts is None,
            Some(o) => back.outposts matches Some(c) && c.key_seq() == o.key_seq() && c.map() == o.map(),
        },
        match cfg.transports {
            None => back.transports is None,
            Some(t) => back.transports matches Some(c) && c.key_seq() == t.key_seq() && same_transports(c.map(), t.map()),
        },
{
    law_certificates_round_trip(full, cfg.certificates@);
}

} // verus!
