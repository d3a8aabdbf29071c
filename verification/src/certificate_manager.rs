//! One managed certificate of the certificate service: its configuration,
//! ACME server, store, and renewal state, and the policy of its renewal loop.
use vstd::prelude::*;
use crate::acme_provider::{parses_as, provider_accepted, AcmeProviderError, AcmeProviderType};
use crate::control_client::RadianceControlClient;
use crate::text::{join_path, joined_path};
use crate::zenith_config::StoreLocation;
use crate::zenith_types::CertificateConfig;

verus! {

/// A store that keeps certificates in a directory of the file system.
#[derive(Clone, Debug)]
pub struct LocalStore {
    pub path: String,
}

/// A store that keeps certificates in Vault.
#[derive(Clone, Debug)]
pub struct VaultStore {
    pub id: String,
}

/// The file names of a local store, under its directory.
pub open spec fn local_store_files() -> Seq<Seq<char>> {
    seq!["account.key"@, "cert.key"@, "cert.pem"@, "chain.pem"@, "fullchain.pem"@]
}

impl LocalStore {
    /// The store of a certificate: the directory named after it under `base`.
    pub fn new(base: &str, id: &str) -> (s: LocalStore)
        ensures
            s.path@ == joined_path(base@, id@),
    {
        LocalStore { path: join_path(base, id) }
    }

    /// Where the ACME account key is kept.
    pub fn account_key_path(&self) -> (p: String)
        ensures
            p@ == joined_path(self.path@, "account.key"@),
    {
        join_path(self.path.as_str(), "account.key")
    }

    /// Where the certificate's private key is kept.
    pub fn cert_key_path(&self) -> (p: String)
        ensures
            p@ == joined_path(self.path@, "cert.key"@),
    {
        join_path(self.path.as_str(), "cert.key")
    }

    /// Where the certificate is kept.
    pub fn cert_path(&self) -> (p: String)
        ensures
            p@ == joined_path(self.path@, "cert.pem"@),
    {
        join_path(self.path.as_str(), "cert.pem")
    }

    /// Where the chain is kept.
    pub fn chain_path(&self) -> (p: String)
        ensures
            p@ == joined_path(self.path@, "chain.pem"@),
    {
        join_path(self.path.as_str(), "chain.pem")
    }

    /// Where the certificate followed by its chain is kept.
    pub fn fullchain_path(&self) -> (p: String)
        ensures
            p@ == joined_path(self.path@, "fullchain.pem"@),
    {
        join_path(self.path.as_str(), "fullchain.pem")
    }

    /// The contents of the full-chain file: the certificate, then the chain.
    pub fn fullchain(cert: &str, chain: &str) -> (f: String)
        ensures
            f@ == cert@ + chain@,
    {
        String::from_str(cert).concat(chain)
    }
}

impl VaultStore {
    /// The Vault store of a certificate.
    pub fn new(id: String) -> (s: VaultStore)
        ensures
            s.id == id,
    {
        VaultStore { id }
    }
}

/// The store a certificate is kept in.
#[derive(Clone, Debug)]
pub enum Store {
    Local(LocalStore),
    Vault(VaultStore),
}

/// Whether a store is the one a location gives for a certificate.
pub open spec fn store_for(location: StoreLocation, id: Seq<char>, store: Store) -> bool {
    match location {
        StoreLocation::Local { path } => store matches Store::Local(s) && s.path@ == joined_path(path@, id),
        StoreLocation::Vault => store matches Store::Vault(v) && v.id@ == id,
    }
}

/// The operations that change a managed certificate's state.
#[derive(Clone, Copy, Debug)]
pub enum ManagerOp {
    MarkDiscarded,
    BeginRenewal(bool),
    FinishRenewal,
}

/// Whether a renewal is under way and whether the certificate is
/// discarded, after an operation.
pub open spec fn flags_after(flags: (bool, bool), op: ManagerOp) -> (bool, bool) {
    match op {
        ManagerOp::MarkDiscarded => (flags.0, true),
        ManagerOp::BeginRenewal(needed) => (flags.0 || needed, flags.1),
        ManagerOp::FinishRenewal => (false, flags.1),
    }
}

/// The state after a run of operations, in order.
pub open spec fn flags_after_all(flags: (bool, bool), ops: Seq<ManagerOp>) -> (bool, bool)
    decreases ops.len(),
{
    if ops.len() == 0 {
        flags
    } else {
        flags_after(flags_after_all(flags, ops.drop_last()), ops.last())
    }
}

/// Once a certificate is discarded it stays discarded, whatever operations
/// follow; and only marking it discards it.
pub proof fn law_discarded_stays_set(flags: (bool, bool), ops: Seq<ManagerOp>)
    ensures
        flags.1 ==> flags_after_all(flags, ops).1,
        flags_after_all(flags, ops).1 ==> flags.1 || ops.contains(ManagerOp::MarkDiscarded),
    decreases ops.len(),
{
    if ops.len() > 0 {
        law_discarded_stays_set(flags, ops.drop_last());
        if flags_after_all(flags, ops.drop_last()).1 && !flags.1 {
            let i = choose|i: int| 0 <= i < ops.drop_last().len() && ops.drop_last()[i] == ManagerOp::MarkDiscarded;
            assert(ops[i] == ManagerOp::MarkDiscarded);
        }
        if ops.last() == ManagerOp::MarkDiscarded {
            assert(ops[ops.len() - 1] == ManagerOp::MarkDiscarded);
        }
    }
}

/// A managed certificate.
pub struct CertificateManager {
    config: CertificateConfig,
    acme_provider: AcmeProviderType,
    control_socket: Option<RadianceControlClient>,
    store: Store,
    renewal_in_progress: bool,
    discarded: bool,
}

impl CertificateManager {
    /// The certificate's configuration.
    pub closed spec fn config_view(&self) -> CertificateConfig {
        self.config
    }

    /// Whether a renewal of the certificate has begun and not finished.
    pub closed spec fn renewing(&self) -> bool {
        self.renewal_in_progress
    }

    /// Whether the certificate has been taken out of the service.
    pub closed spec fn discarded_view(&self) -> bool {
        self.discarded
    }

    /// Whether a renewal is under way, and whether the certificate is discarded.
    pub open spec fn flags(&self) -> (bool, bool) {
        (self.renewing(), self.discarded_view())
    }

    /// The store the certificate is kept in.
    pub closed spec fn store_view(&self) -> Store {
        self.store
    }

    /// The ACME server the certificate is requested from.
    pub closed spec fn provider_view(&self) -> AcmeProviderType {
        self.acme_provider
    }

    /// The proxy control socket that HTTP challenges are announced to.
    pub closed spec fn control_socket_view(&self) -> Option<RadianceControlClient> {
        self.control_socket
    }

    /// A manager of the certificate under the identifier: its ACME server is
    /// the one its configuration names, its store the one the location gives;
    /// no renewal under way, not discarded.
    pub fn new(id: &str, config: CertificateConfig, store_location: &StoreLocation) -> (r: Result<CertificateManager, AcmeProviderError>)
        ensures
            provider_accepted(config.acme_provider@) ==> (r matches Ok(m) && m.config_view() == config
                && parses_as(config.acme_provider@, Ok(m.provider_view()))
                && store_for(*store_location, id@, m.store_view()) && !m.renewing() && !m.discarded_view()
                && match config.control_socket {
                    Some(s) => m.control_socket_view() matches Some(c) && c.path_view() == s@,
                    None => m.control_socket_view() is None,
                }),
            !provider_accepted(config.acme_provider@) ==> (r matches Err(e) && parses_as(config.acme_provider@, Err(e))),
    {
        let acme_provider = match AcmeProviderType::from_string(config.acme_provider.as_str()) {
            Ok(p) => p,
            Err(e) => return Err(e),
        };
        let control_socket = match &config.control_socket {
            Some(s) => Some(RadianceControlClient::new(s.clone())),
            None => None,
        };
        let store = match store_location {
            StoreLocation::Local { path } => Store::Local(LocalStore::new(path.as_str(), id)),
            StoreLocation::Vault => Store::Vault(VaultStore::new(String::from_str(id))),
        };
        Ok(CertificateManager { config, acme_provider, control_socket, store, renewal_in_progress: false, discarded: false })
    }

    /// The certificate's name.
    pub fn name(&self) -> (n: &String)
        ensures
            *n == self.config_view().name,
    {
        &self.config.name
    }

    /// The certificate's configuration.
    pub fn config(&self) -> (c: &CertificateConfig)
        ensures
            *c == self.config_view(),
    {
        &self.config
    }

    /// The ACME server the certificate is requested from.
    pub fn acme_provider(&self) -> (p: &AcmeProviderType)
        ensures
            *p == self.provider_view(),
    {
        &self.acme_provider
    }

    /// The proxy control socket that HTTP challenges are announced to.
    pub fn control_socket(&self) -> (c: &Option<RadianceControlClient>)
        ensures
            *c == self.control_socket_view(),
    {
        &self.control_socket
    }

    /// The store the certificate is kept in.
    pub fn store(&self) -> (s: &Store)
        ensures
            *s == self.store_view(),
    {
        &self.store
    }

    /// Whether a renewal has begun and not finished.
    pub fn is_renewal_in_progress(&self) -> (b: bool)
        ensures
            b == self.renewing(),
    {
        self.renewal_in_progress
    }

    /// Whether the certificate has been taken out of the service.
    pub fn is_discarded(&self) -> (b: bool)
        ensures
            b == self.discarded_view(),
    {
        self.discarded
    }

    /// Marks the certificate as taken out of the service; nothing else changes.
    pub fn mark_discarded(&mut self)
        ensures
            final(self).flags() == flags_after(old(self).flags(), ManagerOp::MarkDiscarded),
            final(self).discarded_view(),
            final(self).config_view() == old(self).config_view(),
            final(self).renewing() == old(self).renewing(),
            final(self).store_view() == old(self).store_view(),
            final(self).provider_view() == old(self).provider_view(),
            final(self).control_socket_view() == old(self).control_socket_view(),
    {
        self.discarded = true;
    }

    /// Begins a renewal where one is needed, and says whether it began.
    pub fn begin_renewal(&mut self, needs_renewal: bool) -> (began: bool)
        ensures
            final(self).flags() == flags_after(old(self).flags(), ManagerOp::BeginRenewal(needs_renewal)),
            began == needs_renewal,
            final(self).renewing() == (old(self).renewing() || needs_renewal),
            final(self).discarded_view() == old(self).discarded_view(),
            final(self).config_view() == old(self).config_view(),
            final(self).store_view() == old(self).store_view(),
            final(self).provider_view() == old(self).provider_view(),
            final(self).control_socket_view() == old(self).control_socket_view(),
    {
        if needs_renewal {
            self.renewal_in_progress = true;
        }
        needs_renewal
    }

    /// Records that the renewal has finished, with the new certificate stored.
    pub fn finish_renewal(&mut self)
        ensures
            final(self).flags() == flags_after(old(self).flags(), ManagerOp::FinishRenewal),
            !final(self).renewing(),
            final(self).discarded_view() == old(self).discarded_view(),
            final(self).config_view() == old(self).config_view(),
            final(self).store_view() == old(self).store_view(),
            final(self).provider_view() == old(self).provider_view(),
            final(self).control_socket_view() == old(self).control_socket_view(),
    {
        self.renewal_in_progress = false;
    }
}

/// Whether a certificate can answer its challenges: a DNS provider of its
/// configuration is set up, or it announces HTTP challenges to a proxy.
pub open spec fn has_challenge_provider(dns_providers: Seq<Seq<char>>, c: CertificateConfig) -> bool {
    dns_providers.contains(c.dns_provider@) || c.control_socket is Some
}

/// A certificate that names a proxy control socket can always answer its
/// challenges, whatever DNS providers are configured (none included); one
/// whose DNS provider is configured can too; one with neither cannot.
pub proof fn law_challenge_provider(dns_providers: Seq<Seq<char>>, c: CertificateConfig)
    ensures
        c.control_socket is Some ==> has_challenge_provider(dns_providers, c),
        dns_providers.contains(c.dns_provider@) ==> has_challenge_provider(dns_providers, c),
        c.control_socket is None && !dns_providers.contains(c.dns_provider@) ==> !has_challenge_provider(dns_providers, c),
{
}

/// Whether a certificate can answer its challenges.
pub fn challenge_available(dns_providers: &Vec<String>, config: &CertificateConfig) -> (b: bool)
    ensures
        b == has_challenge_provider(dns_providers@.map_values(|s: String| s@), *config),
{
    let ghost names = dns_providers@.map_values(|s: String| s@);
    let n = dns_providers.len();
    let mut i: usize = 0;
    while i < n
        invariant
            n == dns_providers@.len(),
            names == dns_providers@.map_values(|s: String| s@),
            i <= n,
            forall|j: int| 0 <= j < i ==> names[j] != config.dns_provider@,
        decreases n - i,
    {
        if dns_providers[i] == config.dns_provider {
            assert(names[i as int] == config.dns_provider@);
            return true;
        }
        i = i + 1;
    }
    config.control_socket.is_some()
}

/// How long the renewal loop waits after a failed check, in seconds.
pub const RETRY_DELAY_SECS: u64 = 300;

/// How long the renewal loop waits between checks, in seconds.
pub const CHECK_INTERVAL_SECS: u64 = 86400;

/// After how many failed checks in a row the renewal loop gives up.
pub const MAX_CONSECUTIVE_FAILURES: u32 = 5;

/// What the renewal loop of a certificate does next.
#[derive(Clone, Copy, Debug)]
pub enum RenewalStep {
    /// Stop checking the certificate.
    Stop,
    /// Wait this many seconds, then check again.
    Wait(u64),
}

/// The failure count and step after a check, from the count before it.
pub open spec fn after_check_spec(failures: u32, succeeded: bool) -> (u32, RenewalStep) {
    if succeeded {
        (0, RenewalStep::Wait(CHECK_INTERVAL_SECS))
    } else if failures + 1 >= MAX_CONSECUTIVE_FAILURES {
        ((failures + 1) as u32, RenewalStep::Stop)
    } else {
        ((failures + 1) as u32, RenewalStep::Wait(RETRY_DELAY_SECS))
    }
}

/// The loop gives up at the fifth failed check in a row and not before:
/// from no failures, four failed checks each wait five minutes and the fifth
/// stops; a successful check at any point starts the count again.
pub proof fn law_renewal_gives_up_after_five_failures(failures: u32)
    requires
        failures < MAX_CONSECUTIVE_FAILURES,
    ensures
        after_check_spec(failures, true) == (0u32, RenewalStep::Wait(CHECK_INTERVAL_SECS)),
        failures + 1 < MAX_CONSECUTIVE_FAILURES ==> after_check_spec(failures, false).1 == RenewalStep::Wait(RETRY_DELAY_SECS),
        failures + 1 == MAX_CONSECUTIVE_FAILURES ==> after_check_spec(failures, false).1 == RenewalStep::Stop,
        ({
            let (f1, s1) = after_check_spec(0, false);
            let (f2, s2) = after_check_spec(f1, false);
            let (f3, s3) = after_check_spec(f2, false);
            let (f4, s4) = after_check_spec(f3, false);
            let (f5, s5) = after_check_spec(f4, false);
            &&& s1 == RenewalStep::Wait(RETRY_DELAY_SECS)
            &&& s2 == RenewalStep::Wait(RETRY_DELAY_SECS)
            &&& s3 == RenewalStep::Wait(RETRY_DELAY_SECS)
            &&& s4 == RenewalStep::Wait(RETRY_DELAY_SECS)
            &&& s5 == RenewalStep::Stop
        }),
{
}

/// The state of the renewal loop of a certificate: the failed checks in a
/// row so far.
pub struct RenewalLoop {
    pub failures: u32,
}

impl RenewalLoop {
    /// A loop that has seen no failure.
    pub fn new() -> (l: RenewalLoop)
        ensures
            l.failures == 0,
    {
        RenewalLoop { failures: 0 }
    }

    /// Whether to check the certificate again: not once it is discarded.
    pub fn should_check(&self, discarded: bool) -> (b: bool)
        ensures
            b == !discarded,
    {
        !discarded
    }

    /// What to do after a check: a success resets the count and waits a day;
    /// a failure waits five minutes, unless it is the fifth in a row, which
    /// stops the loop.
    pub fn after_check(&mut self, succeeded: bool) -> (step: RenewalStep)
        requires
            old(self).failures < MAX_CONSECUTIVE_FAILURES,
        ensures
            (final(self).failures, step) == after_check_spec(old(self).failures, succeeded),
    {
        if succeeded {
            self.failures = 0;
            RenewalStep::Wait(CHECK_INTERVAL_SECS)
        } else {
            self.failures = self.failures + 1;
            if self.failures >= MAX_CONSECUTIVE_FAILURES {
                RenewalStep::Stop
            } else {
                RenewalStep::Wait(RETRY_DELAY_SECS)
            }
        }
    }
}

} // verus!
