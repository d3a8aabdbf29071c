//! The settings of the one-shot ACME client, as its environment gives them.
use vstd::prelude::*;
use crate::text::{comma_list, comma_separated, str_equals, string_views};

verus! {

/// The ACME client's settings.
pub struct Config {
    pub cloudflare_api_key: String,
    pub account_email: String,
    pub domains: Vec<String>,
    pub use_production: bool,
    pub output_dir: String,
}

/// The environment variables the settings come from, each where it is set.
pub struct EnvVars {
    pub cloudflare_api_key: Option<String>,
    pub acme_email: Option<String>,
    pub domains: Option<String>,
    pub use_production: Option<String>,
    pub output_dir: Option<String>,
}

/// Why the settings were refused.
#[derive(Clone, Copy, Debug)]
pub enum ConfigError {
    CloudflareApiKeyNotSet,
    AcmeEmailNotSet,
    DomainsNotSet,
    NoDomainsInVariable,
    CloudflareApiKeyEmpty,
    AccountEmailEmpty,
    NoDomains,
}

impl ConfigError {
    /// The message that describes the error.
    pub fn message(&self) -> (m: &'static str)
        ensures
            match self {
                ConfigError::CloudflareApiKeyNotSet => m@ == "CLOUDFLARE_API_KEY environment variable not set"@,
                ConfigError::AcmeEmailNotSet => m@ == "ACME_EMAIL environment variable not set"@,
                ConfigError::DomainsNotSet => m@ == "DOMAINS environment variable not set (comma-separated list)"@,
                ConfigError::NoDomainsInVariable => m@ == "No domains specified in DOMAINS variable"@,
                ConfigError::CloudflareApiKeyEmpty => m@ == "Cloudflare API key is empty"@,
                ConfigError::AccountEmailEmpty => m@ == "Account email is empty"@,
                ConfigError::NoDomains => m@ == "No domains specified"@,
            },
    {
        match self {
            ConfigError::CloudflareApiKeyNotSet => "CLOUDFLARE_API_KEY environment variable not set",
            ConfigError::AcmeEmailNotSet => "ACME_EMAIL environment variable not set",
            ConfigError::DomainsNotSet => "DOMAINS environment variable not set (comma-separated list)",
            ConfigError::NoDomainsInVariable => "No domains specified in DOMAINS variable",
            ConfigError::CloudflareApiKeyEmpty => "Cloudflare API key is empty",
            ConfigError::AccountEmailEmpty => "Account email is empty",
            ConfigError::NoDomains => "No domains specified",
        }
    }
}

/// Whether the production server is asked for: only where the variable is
/// exactly `true`, as `bool::from_str` reads it (anything else, including
/// `false` and values that do not parse, means no).
pub open spec fn production_flag(v: Option<String>) -> bool {
    match v {
        Some(s) => s@ == "true"@,
        None => false,
    }
}

/// The production server is asked for only where the variable is set, and
/// set to exactly `true`: where it is not set, or set to anything else, the
/// staging server is used.
pub proof fn law_production_only_when_asked(v: Option<String>)
    ensures
        v is None ==> !production_flag(v),
        production_flag(v) ==> (v matches Some(s) && s@ == "true"@),
        (v matches Some(s) && s@ == "true"@) ==> production_flag(v),
{
}

impl Config {
    /// The settings the environment gives: the API key, email and domain list
    /// must be set, and the list (split on commas, trimmed, the empty pieces
    /// left out) must name a domain; the output directory defaults to
    /// `./certs`.
    pub fn from_env(vars: EnvVars) -> (r: Result<Config, ConfigError>)
        ensures
            vars.cloudflare_api_key is None ==> r matches Err(ConfigError::CloudflareApiKeyNotSet),
            vars.cloudflare_api_key is Some && vars.acme_email is None ==> r matches Err(ConfigError::AcmeEmailNotSet),
            vars.cloudflare_api_key is Some && vars.acme_email is Some ==> match vars.domains {
                None => r matches Err(ConfigError::DomainsNotSet),
                Some(d) => if comma_list(d@).len() == 0 {
                    r matches Err(ConfigError::NoDomainsInVariable)
                } else {
                    &&& r matches Ok(c)
                    &&& Some(r->Ok_0.cloudflare_api_key) == vars.cloudflare_api_key
                    &&& Some(r->Ok_0.account_email) == vars.acme_email
                    &&& string_views(r->Ok_0.domains@) == comma_list(d@)
                    &&& r->Ok_0.use_production == production_flag(vars.use_production)
                    &&& match vars.output_dir {
                        Some(o) => r->Ok_0.output_dir == o,
                        None => r->Ok_0.output_dir@ == "./certs"@,
                    }
                },
            },
            r matches Ok(c) ==> (c.use_production <==> (vars.use_production matches Some(s) && s@ == "true"@)),
    {
        let cloudflare_api_key = match vars.cloudflare_api_key {
            Some(k) => k,
            None => return Err(ConfigError::CloudflareApiKeyNotSet),
        };
        let account_email = match vars.acme_email {
            Some(e) => e,
            None => return Err(ConfigError::AcmeEmailNotSet),
        };
        let domains_str = match vars.domains {
            Some(d) => d,
            None => return Err(ConfigError::DomainsNotSet),
        };
        let domains = comma_separated(domains_str.as_str());
        if domains.len() == 0 {
            return Err(ConfigError::NoDomainsInVariable);
        }
        let use_production = match &vars.use_production {
            Some(v) => str_equals(v.as_str(), "true"),
            None => false,
        };
        let output_dir = match vars.output_dir {
            Some(o) => o,
            None => String::from_str("./certs"),
        };
        Ok(Config { cloudflare_api_key, account_email, domains, use_production, output_dir })
    }

    /// Checks that the API key, the email and the domain list are not empty.
    pub fn validate(&self) -> (r: Result<(), ConfigError>)
        ensures
            self.cloudflare_api_key@.len() == 0 ==> r matches Err(ConfigError::CloudflareApiKeyEmpty),
            self.cloudflare_api_key@.len() > 0 && self.account_email@.len() == 0 ==> r matches Err(
                ConfigError::AccountEmailEmpty,
            ),
            self.cloudflare_api_key@.len() > 0 && self.account_email@.len() > 0 && self.domains@.len() == 0
                ==> r matches Err(ConfigError::NoDomains),
            self.cloudflare_api_key@.len() > 0 && self.account_email@.len() > 0 && self.domains@.len() > 0 ==> r is Ok,
    {
        if self.cloudflare_api_key.unicode_len() == 0 {
            return Err(ConfigError::CloudflareApiKeyEmpty);
        }
        if self.account_email.unicode_len() == 0 {
            return Err(ConfigError::AccountEmailEmpty);
        }
        if self.domains.len() == 0 {
            return Err(ConfigError::NoDomains);
        }
        Ok(())
    }
}

} // verus!
