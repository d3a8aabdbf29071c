//! The bodies of the management API's requests, and the proxy commands
//! they become.
use vstd::prelude::*;
use crate::radiance_types::{ControlCommand, HostConfig, PartialHostConfig, TlsCertConfig};

verus! {

/// A request to add a host.
#[derive(Clone, Debug)]
pub struct AddHostRequest {
    pub id: String,
    pub config: HostConfig,
}

/// A request to update a host.
#[derive(Clone, Debug)]
pub struct UpdateHostRequest {
    pub config: PartialHostConfig,
}

/// A request to set an HTTP challenge.
#[derive(Clone, Debug)]
pub struct SetHttpChallengeRequest {
    pub domain: String,
    pub token: String,
    pub thumbprint: String,
}

/// A request to clear an HTTP challenge.
#[derive(Clone, Debug)]
pub struct ClearHttpChallengeRequest {
    pub domain: String,
    pub token: String,
}

impl AddHostRequest {
    /// The proxy command the request becomes.
    pub fn into_command(self) -> (c: ControlCommand)
        ensures
            c == (ControlCommand::AddHost { id: self.id, host: self.config }),
    {
        ControlCommand::AddHost { id: self.id, host: self.config }
    }
}

impl UpdateHostRequest {
    /// The proxy command the request becomes, for the host in the path.
    pub fn into_command(self, id: String) -> (c: ControlCommand)
        ensures
            c == (ControlCommand::UpdateHost { id, host: self.config }),
    {
        ControlCommand::UpdateHost { id, host: self.config }
    }
}

impl SetHttpChallengeRequest {
    /// The proxy command the request becomes.
    pub fn into_command(self) -> (c: ControlCommand)
        ensures
            c == (ControlCommand::SetHttpChallenge { domain: self.domain, token: self.token, thumbprint: self.thumbprint }),
    {
        ControlCommand::SetHttpChallenge { domain: self.domain, token: self.token, thumbprint: self.thumbprint }
    }
}

impl ClearHttpChallengeRequest {
    /// The proxy command the request becomes.
    pub fn into_command(self) -> (c: ControlCommand)
        ensures
            c == (ControlCommand::ClearHttpChallenge { domain: self.domain, token: self.token }),
    {
        ControlCommand::ClearHttpChallenge { domain: self.domain, token: self.token }
    }
}

/// The proxy command that adds a certificate under its own identifier.
pub fn add_certificate_command(certificate: TlsCertConfig) -> (c: ControlCommand)
    ensures
        c matches ControlCommand::AddCertificate { id, certificate: k } && id@ == certificate.id_view() && k == certificate,
{
    let id = certificate.id().clone();
    ControlCommand::AddCertificate { id, certificate }
}

} // verus!
