//! The certificate service's configuration and its checks.
use vstd::prelude::*;
use crate::keyed_map::KeyedMap;
use crate::zenith_types::CertificateConfig;

verus! {

/// Where issued certificates are kept.
#[derive(Clone, Debug)]
pub enum StoreLocation {
    Local { path: String },
    Vault,
}

/// The Cloudflare DNS provider's settings.
#[derive(Clone, Debug)]
pub struct CloudflareConfig {
    pub api_key: String,
}

/// The DNS providers that may answer DNS-01 challenges.
#[derive(Clone, Debug)]
pub struct DnsProviders {
    pub cloudflare: Option<CloudflareConfig>,
}

/// The certificate service's configuration.
pub struct Config {
    pub certificates: KeyedMap<CertificateConfig>,
    pub dns_providers: DnsProviders,
    pub store_location: StoreLocation,
    pub control_socket_path: Option<String>,
}

/// Why a configuration of the certificate service was refused.
#[derive(Clone, Debug)]
pub enum ZenithConfigError {
    /// No configuration file was found.
    NoConfigFile,
    /// The configuration names no certificate.
    NoCertificates,
    /// The named certificate has no domain.
    NoDomains(String),
    /// The named certificate has no account email.
    NoAccountEmail(String),
}

impl ZenithConfigError {
    /// The message that describes the error.
    pub fn message(&self) -> (m: String)
        ensures
            match self {
                ZenithConfigError::NoConfigFile => m@
                    == "No configuration file found. Please set CONFIG_FILE environment variable or create zenith.toml"@,
                ZenithConfigError::NoCertificates => m@ == "No certificates configured"@,
                ZenithConfigError::NoDomains(n) => m@ == "Certificate '"@ + n@ + "' has no domains specified"@,
                ZenithConfigError::NoAccountEmail(n) => m@ == "Certificate '"@ + n@ + "' has no account email"@,
            },
    {
        match self {
            ZenithConfigError::NoConfigFile => String::from_str(
                "No configuration file found. Please set CONFIG_FILE environment variable or create zenith.toml",
            ),
            ZenithConfigError::NoCertificates => String::from_str("No certificates configured"),
            ZenithConfigError::NoDomains(n) => String::from_str("Certificate '").concat(n.as_str()).concat(
                "' has no domains specified",
            ),
            ZenithConfigError::NoAccountEmail(n) => String::from_str("Certificate '").concat(n.as_str()).concat(
                "' has no account email",
            ),
        }
    }
}

/// Whether a certificate's configuration names a domain and an account email.
pub open spec fn certificate_complete(c: CertificateConfig) -> bool {
    c.domains@.len() > 0 && c.account_email@.len() > 0
}

/// The names of the DNS providers the configuration sets up.
pub open spec fn dns_provider_names_of(p: DnsProviders) -> Seq<Seq<char>> {
    if p.cloudflare is Some {
        seq!["cloudflare"@]
    } else {
        Seq::empty()
    }
}

impl DnsProviders {
    /// The names under which the configured DNS providers are known.
    pub fn names(&self) -> (v: Vec<String>)
        ensures
            v@.map_values(|s: String| s@) == dns_provider_names_of(*self),
    {
        let mut v: Vec<String> = Vec::new();
        if self.cloudflare.is_some() {
            v.push(String::from_str("cloudflare"));
            assert(v@.map_values(|s: String| s@) =~= seq!["cloudflare"@]);
        } else {
            assert(v@.map_values(|s: String| s@) =~= Seq::<Seq<char>>::empty());
        }
        v
    }
}

impl Config {
    /// Checks that at least one certificate is configured and that each names
    /// a domain and an account email; the first incomplete certificate, in
    /// order, is the one reported.
    pub fn validate(&self) -> (r: Result<(), ZenithConfigError>)
        ensures
            r is Ok <==> (self.certificates.pairs().len() > 0 && forall|i: int|
                0 <= i < self.certificates.pairs().len() ==> certificate_complete(#[trigger] self.certificates.pairs()[i].1)),
            self.certificates.pairs().len() == 0 ==> r matches Err(ZenithConfigError::NoCertificates),
            r matches Err(ZenithConfigError::NoDomains(n)) ==> exists|i: int|
                0 <= i < self.certificates.pairs().len() && (forall|j: int| 0 <= j < i ==> certificate_complete(#[trigger] self.certificates.pairs()[j].1))
                    && (#[trigger] self.certificates.pairs()[i].1).domains@.len() == 0 && n == self.certificates.pairs()[i].1.name,
            r matches Err(ZenithConfigError::NoAccountEmail(n)) ==> exists|i: int|
                0 <= i < self.certificates.pairs().len() && (forall|j: int| 0 <= j < i ==> certificate_complete(#[trigger] self.certificates.pairs()[j].1))
                    && (#[trigger] self.certificates.pairs()[i].1).domains@.len() > 0
                    && self.certificates.pairs()[i].1.account_email@.len() == 0 && n == self.certificates.pairs()[i].1.name,
            !(r matches Err(ZenithConfigError::NoConfigFile)),
            self.certificates.pairs().len() > 0 ==> !(r matches Err(ZenithConfigError::NoCertificates)),
    {
        let n = self.certificates.len();
        if n == 0 {
            return Err(ZenithConfigError::NoCertificates);
        }
        let mut i: usize = 0;
        while i < n
            invariant
                n == self.certificates.pairs().len(),
                i <= n,
                forall|j: int| 0 <= j < i ==> certificate_complete(#[trigger] self.certificates.pairs()[j].1),
            decreases n - i,
        {
            let (_, cert) = self.certificates.entry_at(i);
            if cert.domains.len() == 0 {
                return Err(ZenithConfigError::NoDomains(cert.name.clone()));
            }
            if cert.account_email.unicode_len() == 0 {
                return Err(ZenithConfigError::NoAccountEmail(cert.name.clone()));
            }
            i = i + 1;
        }
        Ok(())
    }

    /// The configuration that was found, once checked.
    pub fn load(found: Option<Config>) -> (r: Result<Config, ZenithConfigError>)
        ensures
            found is None ==> r matches Err(ZenithConfigError::NoConfigFile),
            found matches Some(c) ==> (r is Ok <==> (c.certificates.pairs().len() > 0 && forall|i: int|
                0 <= i < c.certificates.pairs().len() ==> certificate_complete(#[trigger] c.certificates.pairs()[i].1))),
            r matches Ok(c) ==> found == Some(c),
    {
        match found {
            None => Err(ZenithConfigError::NoConfigFile),
            Some(c) => match c.validate() {
                Ok(()) => Ok(c),
                Err(e) => Err(e),
            },
        }
    }
}

} // verus!
