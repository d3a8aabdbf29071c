//! The data that the certificate service's configuration and control socket
//! carry.
use vstd::prelude::*;

verus! {

/// A certificate the service keeps issued: its domains, the ACME server and
/// the challenge provider to use, and where to announce HTTP challenges.
#[derive(Clone, Debug)]
pub struct CertificateConfig {
    pub name: String,
    pub domains: Vec<String>,
    pub acme_provider: String,
    pub dns_provider: String,
    pub account_email: String,
    pub control_socket: Option<String>,
}

/// An issued certificate: private key, certificate and chain, in PEM.
#[derive(Clone, Debug)]
pub struct Certificate {
    pub key: Vec<u8>,
    pub cert: Vec<u8>,
    pub chain: Vec<u8>,
}

impl Certificate {
    /// The certificate stored as three parts, where all three are present.
    pub fn from_parts(key: Option<Vec<u8>>, cert: Option<Vec<u8>>, chain: Option<Vec<u8>>) -> (c: Option<Certificate>)
        ensures
            (key is Some && cert is Some && chain is Some) <==> c is Some,
            c matches Some(c) ==> key == Some(c.key) && cert == Some(c.cert) && chain == Some(c.chain),
    {
        match (key, cert, chain) {
            (Some(key), Some(cert), Some(chain)) => Some(Certificate { key, cert, chain }),
            _ => None,
        }
    }
}

/// A certificate with its configuration, as the control socket may show it.
#[derive(Clone, Debug)]
pub struct DetailedCertificate {
    pub config: CertificateConfig,
    pub cert: Option<Certificate>,
    pub days_remaining: Option<i64>,
}

/// A command sent to the certificate service's control socket.
#[derive(Clone, Debug)]
pub enum ControlCommand {
    GetCertificate { id: String },
    SubscribeCertificate { id: String },
    AddCertificate { certificate: CertificateConfig, id: String },
    RemoveCertificate { id: String },
    ListCertificates,
    GetRenewStatus { id: String },
    ForceRenew { id: String },
}

/// Why the certificate service refused a control command.
#[derive(Clone, Copy, Debug)]
pub enum ControlError {
    CertificateNotFound,
    CertificateAlreadyExists,
    NoDnsProviderConfigured,
    CertificateAdditionFailed,
    CertificateReadError,
    RenewalAlreadyInProgress,
    FailedToSave,
    MalformedCommand,
}

} // verus!
