//! Loading a local certificate from the contents of its two PEM files.
use vstd::prelude::*;
use crate::certificates::{CertificateLoadError, LoadedCertificate, PrivateKeyKind};

verus! {

/// The DER certificates of the `CERTIFICATE` sections of a PEM text, in
/// order, or `None` where a section does not parse.
pub uninterp spec fn pem_certificates_of(pem: Seq<u8>) -> Option<Seq<Seq<u8>>>;

/// The first private key section of a PEM text, with its encoding; the inner
/// `None` where there is none, the outer `None` where a section before it
/// does not parse or where its encoding is none of PKCS#1, SEC1 and PKCS#8.
pub uninterp spec fn pem_private_key_of(pem: Seq<u8>) -> Option<Option<(PrivateKeyKind, Seq<u8>)>>;

/// Whether rustls can sign with the private key of this encoding and DER
/// bytes: an RSA, ECDSA or (in PKCS#8) EdDSA key it parses.
pub uninterp spec fn rustls_accepts_key(kind: PrivateKeyKind, der: Seq<u8>) -> bool;

/// Calls `rustls::crypto::ring::sign::any_supported_type` on the key and
/// says whether it succeeded. The contract claims only that the answer is a
/// function of the encoding and the bytes.
#[verifier::external_body]
fn key_supported(kind: PrivateKeyKind, der: &[u8]) -> (ok: bool)
    ensures
        ok == rustls_accepts_key(kind, der@),
{
    let key = match kind {
        PrivateKeyKind::Pkcs1 => rustls::pki_types::PrivateKeyDer::Pkcs1(der.to_vec().into()),
        PrivateKeyKind::Sec1 => rustls::pki_types::PrivateKeyDer::Sec1(der.to_vec().into()),
        PrivateKeyKind::Pkcs8 => rustls::pki_types::PrivateKeyDer::Pkcs8(der.to_vec().into()),
    };
    rustls::crypto::ring::sign::any_supported_type(&key).is_ok()
}

/// A private key found in a PEM text.
pub struct PemKey {
    pub kind: PrivateKeyKind,
    pub der: Vec<u8>,
}

/// The plain form of what `read_private_key` returns.
pub open spec fn pem_key_view(r: Option<Option<PemKey>>) -> Option<Option<(PrivateKeyKind, Seq<u8>)>> {
    match r {
        None => None,
        Some(None) => Some(None),
        Some(Some(k)) => Some(Some((k.kind, k.der@))),
    }
}

/// Calls `rustls_pemfile::certs` on the bytes and collects the results,
/// stopping at the first error. The contract claims only that the result is
/// a function of the bytes.
#[verifier::external_body]
fn read_certificates(pem: &[u8]) -> (r: Option<Vec<Vec<u8>>>)
    ensures
        r.deep_view() == pem_certificates_of(pem@),
{
    let mut reader: &[u8] = pem;
    match rustls_pemfile::certs(&mut reader).collect::<Result<Vec<_>, _>>() {
        Ok(certs) => Some(certs.iter().map(|c| c.as_ref().to_vec()).collect()),
        Err(_) => None,
    }
}

/// Calls `rustls_pemfile::private_key` on the bytes and hands back the key's
/// encoding and DER bytes. The contract claims only that the result is a
/// function of the bytes.
#[verifier::external_body]
fn read_private_key(pem: &[u8]) -> (r: Option<Option<PemKey>>)
    ensures
        pem_key_view(r) == pem_private_key_of(pem@),
{
    let mut reader: &[u8] = pem;
    match rustls_pemfile::private_key(&mut reader) {
        Ok(Some(key)) => {
            let der = key.secret_der().to_vec();
            match key {
                rustls::pki_types::PrivateKeyDer::Pkcs1(_) => Some(Some(PemKey { kind: PrivateKeyKind::Pkcs1, der })),
                rustls::pki_types::PrivateKeyDer::Sec1(_) => Some(Some(PemKey { kind: PrivateKeyKind::Sec1, der })),
                rustls::pki_types::PrivateKeyDer::Pkcs8(_) => Some(Some(PemKey { kind: PrivateKeyKind::Pkcs8, der })),
                _ => None,
            }
        },
        Ok(None) => Some(None),
        Err(_) => None,
    }
}

/// What loading a local certificate from the contents of its two files
/// comes to.
pub enum LocalLoad {
    CertificateParse,
    KeyParse,
    NoPrivateKey,
    UnsupportedKey,
    Loaded(Seq<Seq<u8>>, PrivateKeyKind, Seq<u8>),
}

/// What loading a local certificate from the contents of its certificate
/// and key files comes to.
pub open spec fn local_certificate_spec(cert_pem: Seq<u8>, key_pem: Seq<u8>) -> LocalLoad {
    match pem_certificates_of(cert_pem) {
        None => LocalLoad::CertificateParse,
        Some(certs) => match pem_private_key_of(key_pem) {
            None => LocalLoad::KeyParse,
            Some(None) => LocalLoad::NoPrivateKey,
            Some(Some((kind, der))) => if rustls_accepts_key(kind, der) {
                LocalLoad::Loaded(certs, kind, der)
            } else {
                LocalLoad::UnsupportedKey
            },
        },
    }
}

/// Whether a load result is what `expected` says, the missing key's error
/// naming `key_path`.
pub open spec fn loaded_as(r: Result<LoadedCertificate, CertificateLoadError>, expected: LocalLoad, key_path: Seq<char>) -> bool {
    match expected {
        LocalLoad::Loaded(certs, kind, der) => r matches Ok(l) && l.certs.deep_view() == certs && l.key_kind == kind && l.key@ == der,
        LocalLoad::NoPrivateKey => r matches Err(CertificateLoadError::NoPrivateKey(p)) && p@ == key_path,
        LocalLoad::CertificateParse => r matches Err(CertificateLoadError::CertificateParse),
        LocalLoad::KeyParse => r matches Err(CertificateLoadError::KeyParse),
        LocalLoad::UnsupportedKey => r matches Err(CertificateLoadError::UnsupportedKey),
    }
}

/// Loads a local certificate: the certificates of the first file and the
/// first private key of the second, whose path names it in the error where
/// it holds none; refused where rustls cannot sign with the key.
pub fn load_local_certificate(cert_pem: &[u8], key_pem: &[u8], key_path: &str) -> (r: Result<LoadedCertificate, CertificateLoadError>)
    ensures
        loaded_as(r, local_certificate_spec(cert_pem@, key_pem@), key_path@),
        r matches Ok(l) ==> pem_certificates_of(cert_pem@) == Some(l.certs.deep_view()),
{
    let certs = match read_certificates(cert_pem) {
        Some(c) => c,
        None => return Err(CertificateLoadError::CertificateParse),
    };
    match read_private_key(key_pem) {
        None => Err(CertificateLoadError::KeyParse),
        Some(None) => Err(CertificateLoadError::NoPrivateKey(String::from_str(key_path))),
        Some(Some(k)) => if key_supported(k.kind, k.der.as_slice()) {
            Ok(LoadedCertificate { certs, key_kind: k.kind, key: k.der })
        } else {
            Err(CertificateLoadError::UnsupportedKey)
        },
    }
}

/// A local certificate loads exactly when the certificate file parses, the
/// key file holds a key and rustls can sign with it; what loads is every
/// certificate of the certificate file, in file order (the whole chain),
/// with that key.
pub proof fn law_local_load_keeps_the_chain(cert_pem: Seq<u8>, key_pem: Seq<u8>)
    ensures
        (local_certificate_spec(cert_pem, key_pem) is Loaded) <==> (pem_certificates_of(cert_pem) is Some && (
            pem_private_key_of(key_pem) matches Some(Some(k)) && rustls_accepts_key(k.0, k.1))),
        local_certificate_spec(cert_pem, key_pem) matches LocalLoad::Loaded(certs, kind, der) ==> (
            pem_certificates_of(cert_pem) == Some(certs) && pem_private_key_of(key_pem) == Some(Some((kind, der)))),
{
}

} // verus!
