//! What the certificate service's control socket does with each command.
use vstd::prelude::*;
use crate::acme_provider::{parses_as, provider_accepted};
use crate::certificate_manager::{challenge_available, has_challenge_provider, store_for, CertificateManager};
use crate::keyed_map::KeyedMap;
use crate::zenith_config::StoreLocation;
use crate::zenith_types::{CertificateConfig, ControlCommand, ControlError};

verus! {

/// The certificate service's control socket: the socket path, the managed
/// certificates by identifier, the names of the configured DNS providers and
/// where new certificates are stored.
pub struct ControlSocketServer {
    pub socket_path: String,
    pub certificates: KeyedMap<CertificateManager>,
    pub dns_providers: Vec<String>,
    pub store_location: StoreLocation,
}

/// What the caller does next with a command.
#[derive(Debug)]
pub enum ZenithAction {
    /// Answer at once: success with an empty object, or the error.
    Respond(Result<(), ControlError>),
    /// Answer with the certificate's identifier and configuration (see `get_certificate`).
    ShowCertificate(String),
    /// Answer with all certificates (see `list_certificates`).
    ShowCertificates,
    /// Answer whether a renewal of the certificate is under way.
    ShowRenewStatus(bool),
    /// Start renewing the certificate in the background, and answer success.
    StartRenewal(String),
}

impl ControlSocketServer {
    /// A control socket over the managed certificates.
    pub fn new(
        socket_path: String,
        certificates: KeyedMap<CertificateManager>,
        dns_providers: Vec<String>,
        store_location: StoreLocation,
    ) -> (s: ControlSocketServer)
        ensures
            s.socket_path == socket_path,
            s.certificates == certificates,
            s.dns_providers == dns_providers,
            s.store_location == store_location,
    {
        ControlSocketServer { socket_path, certificates, dns_providers, store_location }
    }

    /// The names of the configured DNS providers.
    pub open spec fn provider_names(&self) -> Seq<Seq<char>> {
        self.dns_providers@.map_values(|s: String| s@)
    }

    /// The configuration of the certificate under the identifier.
    pub fn get_certificate(&self, id: &str) -> (r: Result<&CertificateConfig, ControlError>)
        ensures
            self.certificates.map().contains_key(id@) ==> (r matches Ok(c) && *c == self.certificates.map()[id@].config_view()),
            !self.certificates.map().contains_key(id@) ==> r matches Err(ControlError::CertificateNotFound),
    {
        match self.certificates.get(id) {
            Some(m) => Ok(m.config()),
            None => Err(ControlError::CertificateNotFound),
        }
    }

    /// All certificates, in order, with their configurations.
    pub fn list_certificates(&self) -> (v: Vec<(&String, &CertificateConfig)>)
        ensures
            v@.len() == self.certificates.pairs().len(),
            forall|i: int|
                0 <= i < v@.len() ==> (#[trigger] v@[i]).0@ == self.certificates.pairs()[i].0
                    && *v@[i].1 == self.certificates.pairs()[i].1.config_view(),
    {
        let n = self.certificates.len();
        let mut v: Vec<(&String, &CertificateConfig)> = Vec::new();
        let mut i: usize = 0;
        while i < n
            invariant
                n == self.certificates.pairs().len(),
                i <= n,
                v@.len() == i,
                forall|a: int|
                    0 <= a < i ==> (#[trigger] v@[a]).0@ == self.certificates.pairs()[a].0
                        && *v@[a].1 == self.certificates.pairs()[a].1.config_view(),
            decreases n - i,
        {
            let (k, m) = self.certificates.entry_at(i);
            v.push((k, m.config()));
            i = i + 1;
        }
        v
    }

    /// Whether a renewal of the certificate under the identifier is under way.
    pub fn get_renew_status(&self, id: &str) -> (r: Result<bool, ControlError>)
        ensures
            self.certificates.map().contains_key(id@) ==> r == Ok::<bool, ControlError>(self.certificates.map()[id@].renewing()),
            !self.certificates.map().contains_key(id@) ==> r == Err::<bool, ControlError>(ControlError::CertificateNotFound),
    {
        match self.certificates.get(id) {
            Some(m) => Ok(m.is_renewal_in_progress()),
            None => Err(ControlError::CertificateNotFound),
        }
    }

    /// Whether a renewal of the certificate may be forced: it must be known,
    /// with no renewal under way.
    pub fn force_renew(&self, id: &str) -> (r: Result<(), ControlError>)
        ensures
            !self.certificates.map().contains_key(id@) ==> r == Err::<(), ControlError>(ControlError::CertificateNotFound),
            self.certificates.map().contains_key(id@) && self.certificates.map()[id@].renewing() ==> r == Err::<(), ControlError>(ControlError::RenewalAlreadyInProgress),
            self.certificates.map().contains_key(id@) && !self.certificates.map()[id@].renewing() ==> r is Ok,
    {
        match self.certificates.get(id) {
            Some(m) => if m.is_renewal_in_progress() {
                Err(ControlError::RenewalAlreadyInProgress)
            } else {
                Ok(())
            },
            None => Err(ControlError::CertificateNotFound),
        }
    }

    /// Whether a client may subscribe to the certificate's updates: it must
    /// be known.
    pub fn subscribe(&self, id: &str) -> (r: Result<(), ControlError>)
        ensures
            self.certificates.map().contains_key(id@) <==> r is Ok,
            r is Err ==> r == Err::<(), ControlError>(ControlError::CertificateNotFound),
    {
        if self.certificates.contains_key(id) {
            Ok(())
        } else {
            Err(ControlError::CertificateNotFound)
        }
    }

    /// Adds a certificate under the identifier: refused for a known
    /// identifier, for a certificate with no way to answer challenges, and
    /// for an unknown ACME server; otherwise its manager goes in.
    pub fn add_certificate(&mut self, certificate: CertificateConfig, id: String) -> (r: Result<(), ControlError>)
        ensures
            final(self).dns_providers == old(self).dns_providers,
            final(self).store_location == old(self).store_location,
            final(self).socket_path == old(self).socket_path,
            old(self).certificates.map().contains_key(id@) ==> r == Err::<(), ControlError>(ControlError::CertificateAlreadyExists)
                && final(self).certificates == old(self).certificates,
            !old(self).certificates.map().contains_key(id@) && !has_challenge_provider(old(self).provider_names(), certificate)
                ==> r == Err::<(), ControlError>(ControlError::NoDnsProviderConfigured) && final(self).certificates == old(self).certificates,
            !old(self).certificates.map().contains_key(id@) && has_challenge_provider(old(self).provider_names(), certificate)
                && !provider_accepted(certificate.acme_provider@) ==> r == Err::<(), ControlError>(ControlError::CertificateAdditionFailed)
                && final(self).certificates == old(self).certificates,
            !old(self).certificates.map().contains_key(id@) && has_challenge_provider(old(self).provider_names(), certificate)
                && provider_accepted(certificate.acme_provider@) ==> r == Ok::<(), ControlError>(())
                && final(self).certificates.map().dom() == old(self).certificates.map().dom().insert(id@)
                && (forall|k: Seq<char>| k != id@ && #[trigger] old(self).certificates.map().contains_key(k)
                    ==> final(self).certificates.map()[k] == old(self).certificates.map()[k])
                && ({
                    let m = final(self).certificates.map()[id@];
                    &&& m.config_view() == certificate
                    &&& parses_as(certificate.acme_provider@, Ok(m.provider_view()))
                    &&& store_for(old(self).store_location, id@, m.store_view())
                    &&& !m.renewing()
                    &&& !m.discarded_view()
                }),
    {
        if self.certificates.contains_key(id.as_str()) {
            return Err(ControlError::CertificateAlreadyExists);
        }
        if !challenge_available(&self.dns_providers, &certificate) {
            return Err(ControlError::NoDnsProviderConfigured);
        }
        match CertificateManager::new(id.as_str(), certificate, &self.store_location) {
            Ok(manager) => {
                self.certificates.insert(id, manager);
                Ok(())
            },
            Err(_) => Err(ControlError::CertificateAdditionFailed),
        }
    }

    /// Takes the certificate under the identifier out of the service and
    /// hands its manager back, marked discarded.
    pub fn remove_certificate(&mut self, id: &str) -> (r: Result<CertificateManager, ControlError>)
        ensures
            final(self).dns_providers == old(self).dns_providers,
            final(self).store_location == old(self).store_location,
            final(self).socket_path == old(self).socket_path,
            final(self).certificates.map() == old(self).certificates.map().remove(id@),
            old(self).certificates.map().contains_key(id@) ==> (r matches Ok(m) && m.discarded_view()
                && m.config_view() == old(self).certificates.map()[id@].config_view()),
            !old(self).certificates.map().contains_key(id@) ==> r matches Err(ControlError::CertificateNotFound),
    {
        match self.certificates.remove(id) {
            Some(m) => {
                let mut m = m;
                m.mark_discarded();
                Ok(m)
            },
            None => Err(ControlError::CertificateNotFound),
        }
    }

    /// Carries out a command other than a subscription (which the connection
    /// handles on its own) and says what the caller does next.
    pub fn handle_command(&mut self, command: ControlCommand) -> (a: ZenithAction)
        requires
            !(command is SubscribeCertificate),
        ensures
            final(self).dns_providers == old(self).dns_providers,
            final(self).store_location == old(self).store_location,
            match command {
                ControlCommand::GetCertificate { id } => final(self).certificates == old(self).certificates
                    && a == ZenithAction::ShowCertificate(id),
                ControlCommand::ListCertificates => final(self).certificates == old(self).certificates
                    && a == ZenithAction::ShowCertificates,
                ControlCommand::GetRenewStatus { id } => final(self).certificates == old(self).certificates
                    && (old(self).certificates.map().contains_key(id@) ==> a == ZenithAction::ShowRenewStatus(
                        old(self).certificates.map()[id@].renewing(),
                    ))
                    && (!old(self).certificates.map().contains_key(id@) ==> a == ZenithAction::Respond(
                        Err(ControlError::CertificateNotFound),
                    )),
                ControlCommand::ForceRenew { id } => final(self).certificates == old(self).certificates
                    && (!old(self).certificates.map().contains_key(id@) ==> a == ZenithAction::Respond(
                        Err(ControlError::CertificateNotFound),
                    ))
                    && (old(self).certificates.map().contains_key(id@) && old(self).certificates.map()[id@].renewing()
                        ==> a == ZenithAction::Respond(Err(ControlError::RenewalAlreadyInProgress)))
                    && (old(self).certificates.map().contains_key(id@) && !old(self).certificates.map()[id@].renewing()
                        ==> a == ZenithAction::StartRenewal(id)),
                ControlCommand::RemoveCertificate { id } => final(self).certificates.map() == old(self).certificates.map().remove(id@)
                    && (old(self).certificates.map().contains_key(id@) ==> a == ZenithAction::Respond(Ok(())))
                    && (!old(self).certificates.map().contains_key(id@) ==> a == ZenithAction::Respond(
                        Err(ControlError::CertificateNotFound),
                    )),
                ControlCommand::AddCertificate { certificate, id } => {
                    &&& old(self).certificates.map().contains_key(id@) ==> a == ZenithAction::Respond(Err(ControlError::CertificateAlreadyExists))
                    &&& !old(self).certificates.map().contains_key(id@) && !has_challenge_provider(old(self).provider_names(), certificate)
                        ==> a == ZenithAction::Respond(Err(ControlError::NoDnsProviderConfigured))
                    &&& !old(self).certificates.map().contains_key(id@) && has_challenge_provider(old(self).provider_names(), certificate)
                        && !provider_accepted(certificate.acme_provider@) ==> a == ZenithAction::Respond(Err(ControlError::CertificateAdditionFailed))
                    &&& !old(self).certificates.map().contains_key(id@) && has_challenge_provider(old(self).provider_names(), certificate)
                        && provider_accepted(certificate.acme_provider@) ==> a == ZenithAction::Respond(Ok(()))
                        && final(self).certificates.map().contains_key(id@)
                        && final(self).certificates.map()[id@].config_view() == certificate
                    &&& (a is Respond && a->Respond_0 is Err) ==> final(self).certificates == old(self).certificates
                },
                ControlCommand::SubscribeCertificate { .. } => false,
            },
    {
        match command {
            ControlCommand::GetCertificate { id } => ZenithAction::ShowCertificate(id),
            ControlCommand::ListCertificates => ZenithAction::ShowCertificates,
            ControlCommand::GetRenewStatus { id } => match self.get_renew_status(id.as_str()) {
                Ok(b) => ZenithAction::ShowRenewStatus(b),
                Err(e) => ZenithAction::Respond(Err(e)),
            },
            ControlCommand::ForceRenew { id } => match self.force_renew(id.as_str()) {
                Ok(()) => ZenithAction::StartRenewal(id),
                Err(e) => ZenithAction::Respond(Err(e)),
            },
            ControlCommand::RemoveCertificate { id } => match self.remove_certificate(id.as_str()) {
                Ok(_) => ZenithAction::Respond(Ok(())),
                Err(e) => ZenithAction::Respond(Err(e)),
            },
            ControlCommand::AddCertificate { certificate, id } => ZenithAction::Respond(self.add_certificate(certificate, id)),
            ControlCommand::SubscribeCertificate { .. } => ZenithAction::Respond(Err(ControlError::MalformedCommand)),
        }
    }
}

} // verus!
