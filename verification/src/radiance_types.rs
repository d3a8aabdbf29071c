//! The data that the proxy's configuration and control socket carry: hosts
//! and their upstreams, TLS certificate sources, control commands and their
//! errors.
use vstd::prelude::*;
use crate::text::string_views;

verus! {

/// Where a host's traffic goes: a local address, or an address reached
/// through an outpost.
#[derive(Clone, Debug)]
pub enum ServerConfig {
    Local { address: String },
    Outpost { address: String, id: String },
}

/// The servers behind a host.
#[derive(Clone, Debug)]
pub struct UpstreamConfig {
    pub servers: Vec<ServerConfig>,
}

/// A proxied host: the domains it answers for and where it forwards.
#[derive(Clone, Debug)]
pub struct HostConfig {
    pub domains: Vec<String>,
    pub upstream: UpstreamConfig,
}

/// A partial host, whose present fields replace those of a host.
#[derive(Clone, Debug)]
pub struct PartialHostConfig {
    pub domains: Option<Vec<String>>,
    pub upstream: Option<UpstreamConfig>,
}

impl ServerConfig {
    /// A copy of the server.
    pub fn duplicate(&self) -> (r: ServerConfig)
        ensures
            r == *self,
    {
        match self {
            ServerConfig::Local { address } => ServerConfig::Local { address: address.clone() },
            ServerConfig::Outpost { address, id } => ServerConfig::Outpost { address: address.clone(), id: id.clone() },
        }
    }
}

/// A copy of a list of servers.
pub fn copy_servers(v: &Vec<ServerConfig>) -> (r: Vec<ServerConfig>)
    ensures
        r@ == v@,
{
    let mut r: Vec<ServerConfig> = Vec::new();
    let n = v.len();
    let mut i: usize = 0;
    while i < n
        invariant
            n == v@.len(),
            i <= n,
            r@ == v@.subrange(0, i as int),
        decreases n - i,
    {
        r.push(v[i].duplicate());
        i = i + 1;
        assert(r@ =~= v@.subrange(0, i as int));
    }
    assert(v@.subrange(0, n as int) =~= v@);
    r
}

/// A copy of a list of strings.
pub fn copy_strings(v: &Vec<String>) -> (r: Vec<String>)
    ensures
        r@ == v@,
{
    let r = v.clone();
    assert(r@ =~= v@);
    r
}

impl HostConfig {
    /// The domains of the host, as character sequences.
    pub open spec fn domain_views(&self) -> Seq<Seq<char>> {
        string_views(self.domains@)
    }

    /// Whether two hosts hold the same domains and the same servers.
    pub open spec fn same_as(&self, other: HostConfig) -> bool {
        self.domains@ == other.domains@ && self.upstream.servers@ == other.upstream.servers@
    }

    /// A copy of the host.
    pub fn duplicate(&self) -> (r: HostConfig)
        ensures
            r.same_as(*self),
    {
        HostConfig {
            domains: copy_strings(&self.domains),
            upstream: UpstreamConfig { servers: copy_servers(&self.upstream.servers) },
        }
    }

    /// The host with the present fields of `partial` put in place of its own.
    pub open spec fn with_partial(self, partial: PartialHostConfig) -> HostConfig {
        HostConfig {
            domains: match partial.domains {
                Some(d) => d,
                None => self.domains,
            },
            upstream: match partial.upstream {
                Some(u) => u,
                None => self.upstream,
            },
        }
    }

    /// Replaces each field of the host that `partial` holds.
    pub fn apply_some(&mut self, partial: PartialHostConfig)
        ensures
            *final(self) == old(self).with_partial(partial),
    {
        if let Some(d) = partial.domains {
            self.domains = d;
        }
        if let Some(u) = partial.upstream {
            self.upstream = u;
        }
    }
}

/// Applying a partial host replaces each field the partial holds with the
/// partial's value, and keeps each field it leaves out.
pub proof fn law_apply_partial_fields(host: HostConfig, partial: PartialHostConfig)
    ensures
        partial.domains matches Some(d) ==> host.with_partial(partial).domains == d,
        partial.domains is None ==> host.with_partial(partial).domains == host.domains,
        partial.upstream matches Some(u) ==> host.with_partial(partial).upstream == u,
        partial.upstream is None ==> host.with_partial(partial).upstream == host.upstream,
{
}

/// Where a TLS certificate comes from.
#[derive(Clone, Debug)]
pub enum TlsCertConfig {
    Local { id: String, cert_file: String, key_file: String },
    Vault { id: String },
    Managed { id: String },
}

impl TlsCertConfig {
    /// The identifier of the certificate.
    pub open spec fn id_view(&self) -> Seq<char> {
        match self {
            TlsCertConfig::Local { id, .. } => id@,
            TlsCertConfig::Vault { id } => id@,
            TlsCertConfig::Managed { id } => id@,
        }
    }

    /// A copy of the source.
    pub fn duplicate(&self) -> (r: TlsCertConfig)
        ensures
            r == *self,
    {
        match self {
            TlsCertConfig::Local { id, cert_file, key_file } => TlsCertConfig::Local {
                id: id.clone(),
                cert_file: cert_file.clone(),
                key_file: key_file.clone(),
            },
            TlsCertConfig::Vault { id } => TlsCertConfig::Vault { id: id.clone() },
            TlsCertConfig::Managed { id } => TlsCertConfig::Managed { id: id.clone() },
        }
    }

    /// The identifier of the certificate.
    pub fn id(&self) -> (r: &String)
        ensures
            r@ == self.id_view(),
    {
        match self {
            TlsCertConfig::Local { id, .. } => id,
            TlsCertConfig::Vault { id } => id,
            TlsCertConfig::Managed { id } => id,
        }
    }
}

/// The empty object that successful commands answer with.
#[derive(Clone, Debug)]
pub struct Empty {}

/// A command sent to the proxy's control socket.
#[derive(Clone, Debug)]
pub enum ControlCommand {
    AddHost { id: String, host: HostConfig },
    UpdateHost { id: String, host: PartialHostConfig },
    RemoveHost { id: String },
    ListHosts,
    Reload,
    GetHost { id: String },
    SetHttpChallenge { domain: String, token: String, thumbprint: String },
    ClearHttpChallenge { domain: String, token: String },
    AddCertificate { id: String, certificate: TlsCertConfig },
    RemoveCertificate { id: String },
    ListCertificates,
    GetCertificate { id: String },
}

/// Why the proxy refused a control command.
#[derive(Clone, Debug)]
pub enum ControlError {
    HostNotFound,
    HostAlreadyExists,
    CertificateNotFound,
    CertificateAlreadyExists,
    InvalidCertificate,
    HttpChallengeNotFound,
    FailedToReload,
    FailedToSave,
    MalformedCommand,
    InternalError(String),
}

impl ControlError {
    /// The message that describes the error.
    pub open spec fn message_view(&self) -> Seq<char> {
        match self {
            ControlError::HostNotFound => "Host not found"@,
            ControlError::HostAlreadyExists => "Host already exists"@,
            ControlError::CertificateNotFound => "Certificate not found"@,
            ControlError::CertificateAlreadyExists => "Certificate already exists"@,
            ControlError::InvalidCertificate => "Invalid certificate"@,
            ControlError::HttpChallengeNotFound => "HTTP challenge not found"@,
            ControlError::FailedToReload => "Failed to reload configuration"@,
            ControlError::FailedToSave => "Failed to save configuration"@,
            ControlError::MalformedCommand => "Malformed command"@,
            ControlError::InternalError(msg) => "Internal error: "@ + msg@,
        }
    }

    /// The message that describes the error, as the error's `Display` writes it.
    pub fn message(&self) -> (m: String)
        ensures
            m@ == self.message_view(),
    {
        match self {
            ControlError::HostNotFound => String::from_str("Host not found"),
            ControlError::HostAlreadyExists => String::from_str("Host already exists"),
            ControlError::CertificateNotFound => String::from_str("Certificate not found"),
            ControlError::CertificateAlreadyExists => String::from_str(
                "Certificate already exists",
            ),
            ControlError::InvalidCertificate => String::from_str("Invalid certificate"),
            ControlError::HttpChallengeNotFound => String::from_str("HTTP challenge not found"),
            ControlError::FailedToReload => String::from_str("Failed to reload configuration"),
            ControlError::FailedToSave => String::from_str("Failed to save configuration"),
            ControlError::MalformedCommand => String::from_str("Malformed command"),
            ControlError::InternalError(msg) => String::from_str("Internal error: ").concat(
                msg.as_str(),
            ),
        }
    }
}

} // verus!
