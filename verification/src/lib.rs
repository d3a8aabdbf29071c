//! Verified core of the Radiance reverse proxy and its companion services:
//! configuration checks, the control-socket command logic of the proxy and
//! of the certificate service, session and authentication decisions, and the
//! small parsers that the transports use.
use vstd::prelude::*;

pub mod keyed_map;
pub mod text;
pub mod radiance_types;
pub mod certificates;
pub mod pem;
pub mod acme_provider;
pub mod control_client;
pub mod zenith_types;
pub mod zenith_config;
pub mod certificate_manager;
pub mod zenith_control;
pub mod acme_config;
pub mod transport;
pub mod api_config;
pub mod api_errors;
pub mod sessions;
pub mod auth;
pub mod oidc_logins;
pub mod api_requests;
pub mod proxy_config;
pub mod proxy_control;

verus! {
} // verus!
