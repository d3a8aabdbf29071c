//! TLS certificate material as the proxy holds it: where a certificate is
//! read from, what loading it yields, and how many days it has left.
use vstd::prelude::*;
use crate::radiance_types::TlsCertConfig;

verus! {

/// The encoding of a private key, as its PEM section names it.
#[derive(Clone, Copy, Debug)]
pub enum PrivateKeyKind {
    Pkcs1,
    Sec1,
    Pkcs8,
}

/// A certificate chain and its private key, in DER form, as read from PEM
/// files; `certs[0]` is the leaf.
#[derive(Clone, Debug)]
pub struct LoadedCertificate {
    pub certs: Vec<Vec<u8>>,
    pub key_kind: PrivateKeyKind,
    pub key: Vec<u8>,
}

/// Why a certificate could not be loaded.
#[derive(Clone, Debug)]
pub enum CertificateLoadError {
    /// The certificate PEM file holds a section that does not parse.
    CertificateParse,
    /// The key PEM file holds a section that does not parse.
    KeyParse,
    /// The key PEM file, at the given path, holds no private key.
    NoPrivateKey(String),
    /// Loading certificates from Vault is not implemented.
    VaultNotImplemented,
    /// Loading managed certificates is not implemented.
    ManagedNotImplemented,
    /// A file of the certificate could not be read.
    Unreadable(String),
    /// The private key is of no type that rustls can sign with.
    UnsupportedKey,
}

/// The two PEM files of a local certificate source.
pub struct CertificateFiles<'a> {
    pub cert_file: &'a String,
    pub key_file: &'a String,
}

/// Where the material of a certificate source is read from: local sources
/// name two files; the other sources cannot be loaded.
pub fn certificate_files(config: &TlsCertConfig) -> (r: Result<CertificateFiles<'_>, CertificateLoadError>)
    ensures
        match config {
            TlsCertConfig::Local { cert_file, key_file, .. } => r matches Ok(f) && f.cert_file
                == cert_file && f.key_file == key_file,
            TlsCertConfig::Vault { .. } => r matches Err(CertificateLoadError::VaultNotImplemented),
            TlsCertConfig::Managed { .. } => r matches Err(
                CertificateLoadError::ManagedNotImplemented,
            ),
        },
{
    match config {
        TlsCertConfig::Local { cert_file, key_file, .. } => Ok(
            CertificateFiles { cert_file, key_file },
        ),
        TlsCertConfig::Vault { .. } => Err(CertificateLoadError::VaultNotImplemented),
        TlsCertConfig::Managed { .. } => Err(CertificateLoadError::ManagedNotImplemented),
    }
}

/// The end of the validity period of a DER-encoded X.509 certificate, in
/// seconds since the Unix epoch, or `None` where the bytes do not parse as a
/// certificate.
pub uninterp spec fn x509_not_after(der: Seq<u8>) -> Option<i64>;

/// Calls `x509_parser::parse_x509_certificate` and, where it succeeds, reads
/// the `not_after` time of the validity as a Unix timestamp
/// (`ASN1Time::timestamp`). The contract claims only that the result is a
/// function of the bytes; what that function is, is left to the parser.
#[verifier::external_body]
fn parse_not_after(der: &[u8]) -> (r: Option<i64>)
    ensures
        r == x509_not_after(der@),
{
    match x509_parser::parse_x509_certificate(der) {
        Ok((_, parsed)) => Some(parsed.validity().not_after.timestamp()),
        Err(_) => None,
    }
}

/// Integer division rounded toward zero, as Rust's `/` on signed integers.
pub open spec fn div_toward_zero(x: int, d: int) -> int {
    if x >= 0 {
        x / d
    } else {
        -((-x) / d)
    }
}

/// The whole days from `now` to `not_after`, rounded toward zero.
pub open spec fn days_between(not_after: i64, now: i64) -> int {
    div_toward_zero(not_after - now, 86400)
}

/// The whole days left before the certificate expires, counted from `now`.
pub open spec fn days_remaining_of(der: Seq<u8>, now: i64) -> Option<int> {
    match x509_not_after(der) {
        Some(t) => Some(days_between(t, now)),
        None => None,
    }
}

/// The whole days from `now` to `not_after` (both seconds since the Unix
/// epoch), rounded toward zero: negative once `not_after` has passed.
pub fn days_left(not_after: i64, now: i64) -> (d: i64)
    ensures
        d == days_between(not_after, now),
{
    let diff: i128 = not_after as i128 - now as i128;
    let days: i128 = if diff >= 0 {
        diff / 86400
    } else {
        -((-diff) / 86400)
    };
    assert(-0x8000_0000_0000_0000 <= days <= 0x7fff_ffff_ffff_ffff) by (nonlinear_arith)
        requires
            -0x1_0000_0000_0000_0000 < diff < 0x1_0000_0000_0000_0000,
            diff >= 0 ==> days == diff / 86400,
            diff < 0 ==> days == -((-diff) / 86400),
    ;
    days as i64
}

/// The whole days left before a DER certificate expires, counted from `now`
/// (seconds since the Unix epoch); `None` where it does not parse.
pub fn get_expiration(cert: &[u8], now: i64) -> (r: Option<i64>)
    ensures
        r matches Some(d) ==> days_remaining_of(cert@, now) == Some(d as int),
        r is None <==> days_remaining_of(cert@, now) is None,
{
    match parse_not_after(cert) {
        Some(t) => Some(days_left(t, now)),
        None => None,
    }
}

} // verus!
