//! The ACME servers a certificate can be requested from.
use vstd::prelude::*;
use crate::text::{starts_with, str_equals};

verus! {

/// An ACME server: one of the known ones, or a custom directory URL.
#[derive(Clone, Debug)]
pub enum AcmeProviderType {
    LetsEncryptProduction,
    LetsEncryptStaging,
    ZeroSslProduction,
    Custom(String),
}

/// Why an ACME provider name was refused.
#[derive(Clone, Debug)]
pub enum AcmeProviderError {
    /// The name is neither a known provider nor an http(s) URL.
    Unknown(String),
}

impl AcmeProviderError {
    /// The message that describes the error.
    pub fn message(&self) -> (m: String)
        ensures
            match self {
                AcmeProviderError::Unknown(s) => m@ == "Unknown ACME provider: "@ + s@,
            },
    {
        match self {
            AcmeProviderError::Unknown(s) => String::from_str("Unknown ACME provider: ").concat(s.as_str()),
        }
    }
}

/// The Unicode lowercase mapping of a string, as `str::to_lowercase` gives it.
pub uninterp spec fn lowercase_of(s: Seq<char>) -> Seq<char>;

/// Calls `str::to_lowercase`. The contract claims only that the result is a
/// function of the string.
#[verifier::external_body]
fn to_lowercase(s: &str) -> (r: String)
    ensures
        r@ == lowercase_of(s@),
{
    s.to_lowercase()
}

/// Whether `s` begins with `prefix`.
pub open spec fn has_prefix(s: Seq<char>, prefix: Seq<char>) -> bool {
    prefix.len() <= s.len() && s.subrange(0, prefix.len() as int) == prefix
}

/// Whether a lowercased name is one of the known providers' names.
pub open spec fn is_known_name(lowered: Seq<char>) -> bool {
    lowered == "letsencrypt"@ || lowered == "letsencrypt-production"@ || lowered == "letsencrypt-staging"@
        || lowered == "zerossl"@
}

/// Whether a provider name is accepted: a known name once lowercased, or an
/// http(s) URL.
pub open spec fn provider_accepted(s: Seq<char>) -> bool {
    is_known_name(lowercase_of(s)) || has_prefix(s, "http://"@) || has_prefix(s, "https://"@)
}

/// Whether `r` is what `AcmeProviderType::from_string` gives for `s`.
pub open spec fn parses_as(s: Seq<char>, r: Result<AcmeProviderType, AcmeProviderError>) -> bool {
    let l = lowercase_of(s);
    match r {
        Ok(AcmeProviderType::LetsEncryptProduction) => l == "letsencrypt"@ || l == "letsencrypt-production"@,
        Ok(AcmeProviderType::LetsEncryptStaging) => l == "letsencrypt-staging"@,
        Ok(AcmeProviderType::ZeroSslProduction) => l == "zerossl"@,
        Ok(AcmeProviderType::Custom(u)) => !is_known_name(l) && (has_prefix(s, "http://"@) || has_prefix(s, "https://"@)) && u@ == s,
        Err(AcmeProviderError::Unknown(u)) => !provider_accepted(s) && u@ == s,
    }
}

/// The directory URL of Let's Encrypt's production server.
pub open spec fn lets_encrypt_production_url() -> Seq<char> {
    "https://acme-v02.api.letsencrypt.org/directory"@
}

/// The directory URL of Let's Encrypt's staging server.
pub open spec fn lets_encrypt_staging_url() -> Seq<char> {
    "https://acme-staging-v02.api.letsencrypt.org/directory"@
}

/// The directory URL of ZeroSSL's production server.
pub open spec fn zerossl_production_url() -> Seq<char> {
    "https://acme.zerossl.com/v2/DV90"@
}

impl AcmeProviderType {
    /// The directory URL of the provider; for the known servers, the URLs
    /// that `instant_acme::LetsEncrypt::url` and `instant_acme::ZeroSsl::url`
    /// return.
    pub fn directory_url(&self) -> (u: &str)
        ensures
            match self {
                AcmeProviderType::LetsEncryptProduction => u@ == lets_encrypt_production_url(),
                AcmeProviderType::LetsEncryptStaging => u@ == lets_encrypt_staging_url(),
                AcmeProviderType::ZeroSslProduction => u@ == zerossl_production_url(),
                AcmeProviderType::Custom(url) => u@ == url@,
            },
    {
        match self {
            AcmeProviderType::LetsEncryptProduction => "https://acme-v02.api.letsencrypt.org/directory",
            AcmeProviderType::LetsEncryptStaging => "https://acme-staging-v02.api.letsencrypt.org/directory",
            AcmeProviderType::ZeroSslProduction => "https://acme.zerossl.com/v2/DV90",
            AcmeProviderType::Custom(url) => url.as_str(),
        }
    }

    /// A readable name of the provider.
    pub fn name(&self) -> (n: &str)
        ensures
            match self {
                AcmeProviderType::LetsEncryptProduction => n@ == "Let's Encrypt (production)"@,
                AcmeProviderType::LetsEncryptStaging => n@ == "Let's Encrypt (staging)"@,
                AcmeProviderType::ZeroSslProduction => n@ == "ZeroSSL"@,
                AcmeProviderType::Custom(_) => n@ == "Custom provider"@,
            },
    {
        match self {
            AcmeProviderType::LetsEncryptProduction => "Let's Encrypt (production)",
            AcmeProviderType::LetsEncryptStaging => "Let's Encrypt (staging)",
            AcmeProviderType::ZeroSslProduction => "ZeroSSL",
            AcmeProviderType::Custom(_) => "Custom provider",
        }
    }

    /// The provider that a name stands for, given the name and its lowercase
    /// form: the known names in any case, or an http(s) URL.
    pub fn from_lowercased(s: &str, lowered: &str) -> (r: Result<AcmeProviderType, AcmeProviderError>)
        ensures
            (lowered@ == "letsencrypt"@ || lowered@ == "letsencrypt-production"@) ==> r matches Ok(
                AcmeProviderType::LetsEncryptProduction,
            ),
            lowered@ == "letsencrypt-staging"@ ==> r matches Ok(AcmeProviderType::LetsEncryptStaging),
            lowered@ == "zerossl"@ ==> r matches Ok(AcmeProviderType::ZeroSslProduction),
            !is_known_name(lowered@) && (has_prefix(s@, "http://"@) || has_prefix(s@, "https://"@)) ==> (
            r matches Ok(AcmeProviderType::Custom(u)) && u@ == s@),
            !is_known_name(lowered@) && !(has_prefix(s@, "http://"@) || has_prefix(s@, "https://"@))
                ==> (r matches Err(AcmeProviderError::Unknown(u)) && u@ == s@),
    {
        proof {
            reveal_strlit("letsencrypt");
            reveal_strlit("letsencrypt-production");
            reveal_strlit("letsencrypt-staging");
            reveal_strlit("zerossl");
            assert("letsencrypt"@.len() == 11);
            assert("letsencrypt-production"@.len() == 22);
            assert("letsencrypt-staging"@.len() == 19);
            assert("zerossl"@.len() == 7);
        }
        if str_equals(lowered, "letsencrypt") || str_equals(lowered, "letsencrypt-production") {
            Ok(AcmeProviderType::LetsEncryptProduction)
        } else if str_equals(lowered, "letsencrypt-staging") {
            Ok(AcmeProviderType::LetsEncryptStaging)
        } else if str_equals(lowered, "zerossl") {
            Ok(AcmeProviderType::ZeroSslProduction)
        } else if starts_with(s, "http://") || starts_with(s, "https://") {
            Ok(AcmeProviderType::Custom(String::from_str(s)))
        } else {
            Err(AcmeProviderError::Unknown(String::from_str(s)))
        }
    }

    /// The provider that a name stands for: the known names in any case
    /// (as `str::to_lowercase` maps it), or an http(s) URL.
    pub fn from_string(s: &str) -> (r: Result<AcmeProviderType, AcmeProviderError>)
        ensures
            (lowercase_of(s@) == "letsencrypt"@ || lowercase_of(s@) == "letsencrypt-production"@) ==> r matches Ok(
                AcmeProviderType::LetsEncryptProduction,
            ),
            lowercase_of(s@) == "letsencrypt-staging"@ ==> r matches Ok(AcmeProviderType::LetsEncryptStaging),
            lowercase_of(s@) == "zerossl"@ ==> r matches Ok(AcmeProviderType::ZeroSslProduction),
            !is_known_name(lowercase_of(s@)) && (has_prefix(s@, "http://"@) || has_prefix(s@, "https://"@)) ==> (
            r matches Ok(AcmeProviderType::Custom(u)) && u@ == s@),
            !is_known_name(lowercase_of(s@)) && !(has_prefix(s@, "http://"@) || has_prefix(s@, "https://"@))
                ==> (r matches Err(AcmeProviderError::Unknown(u)) && u@ == s@),
            parses_as(s@, r),
    {
        proof {
            reveal_strlit("letsencrypt");
            reveal_strlit("letsencrypt-production");
            reveal_strlit("letsencrypt-staging");
            reveal_strlit("zerossl");
            assert("letsencrypt"@.len() == 11);
            assert("letsencrypt-production"@.len() == 22);
            assert("letsencrypt-staging"@.len() == 19);
            assert("zerossl"@.len() == 7);
        }
        let lowered = to_lowercase(s);
        Self::from_lowercased(s, lowered.as_str())
    }
}

} // verus!
