use radiance::acme_provider::{AcmeProviderError, AcmeProviderType};
use radiance::certificate_manager::{
    challenge_available, CertificateManager, LocalStore, RenewalLoop, RenewalStep, Store, VaultStore,
    CHECK_INTERVAL_SECS, RETRY_DELAY_SECS,
};
use radiance::keyed_map::KeyedMap;
use radiance::zenith_config::{CloudflareConfig, Config, DnsProviders, StoreLocation, ZenithConfigError};
use radiance::zenith_control::{ControlSocketServer, ZenithAction};
use radiance::zenith_types::{Certificate, CertificateConfig, ControlCommand, ControlError};

fn cert_config(name: &str, acme: &str, dns: &str, socket: Option<&str>) -> CertificateConfig {
    CertificateConfig {
        name: name.to_string(),
        domains: vec![format!("{}.example.com", name)],
        acme_provider: acme.to_string(),
        dns_provider: dns.to_string(),
        account_email: "ops@example.com".to_string(),
        control_socket: socket.map(|s| s.to_string()),
    }
}

fn server() -> ControlSocketServer {
    ControlSocketServer::new(
        "/tmp/zenith.sock".to_string(),
        KeyedMap::new(),
        vec!["cloudflare".to_string()],
        StoreLocation::Local { path: "/var/lib/zenith".to_string() },
    )
}

#[test]
fn acme_provider_names_in_any_case() {
    assert!(matches!(AcmeProviderType::from_string("LetsEncrypt"), Ok(AcmeProviderType::LetsEncryptProduction)));
    assert!(matches!(AcmeProviderType::from_string("letsencrypt-production"), Ok(AcmeProviderType::LetsEncryptProduction)));
    assert!(matches!(AcmeProviderType::from_string("LETSENCRYPT-STAGING"), Ok(AcmeProviderType::LetsEncryptStaging)));
    assert!(matches!(AcmeProviderType::from_string("ZeroSSL"), Ok(AcmeProviderType::ZeroSslProduction)));
    match AcmeProviderType::from_string("https://acme.example/dir") {
        Ok(AcmeProviderType::Custom(u)) => assert_eq!(u, "https://acme.example/dir"),
        _ => panic!("expected a custom provider"),
    }
}

#[test]
fn acme_provider_refuses_unknown_names() {
    match AcmeProviderType::from_string("bogus") {
        Err(e) => assert_eq!(e.message(), "Unknown ACME provider: bogus"),
        _ => panic!("expected an error"),
    }
    assert!(matches!(AcmeProviderType::from_string("HTTPS://ACME.EXAMPLE"), Err(AcmeProviderError::Unknown(_))));
}

#[test]
fn acme_provider_urls_and_names() {
    assert_eq!(AcmeProviderType::LetsEncryptProduction.directory_url(), "https://acme-v02.api.letsencrypt.org/directory");
    assert_eq!(AcmeProviderType::LetsEncryptStaging.directory_url(), "https://acme-staging-v02.api.letsencrypt.org/directory");
    assert_eq!(AcmeProviderType::ZeroSslProduction.directory_url(), "https://acme.zerossl.com/v2/DV90");
    assert_eq!(AcmeProviderType::Custom("https://x/y".to_string()).directory_url(), "https://x/y");
    assert_eq!(AcmeProviderType::LetsEncryptProduction.name(), "Let's Encrypt (production)");
    assert_eq!(AcmeProviderType::LetsEncryptStaging.name(), "Let's Encrypt (staging)");
    assert_eq!(AcmeProviderType::ZeroSslProduction.name(), "ZeroSSL");
    assert_eq!(AcmeProviderType::Custom("u".to_string()).name(), "Custom provider");
}

#[test]
fn zenith_config_validation() {
    let mut cfg = Config {
        certificates: KeyedMap::new(),
        dns_providers: DnsProviders { cloudflare: None },
        store_location: StoreLocation::Vault,
        control_socket_path: None,
    };
    assert!(matches!(cfg.validate(), Err(ZenithConfigError::NoCertificates)));
    cfg.certificates.insert("a".to_string(), cert_config("a", "letsencrypt", "cloudflare", None));
    assert!(cfg.validate().is_ok());
    let mut no_domains = cert_config("b", "letsencrypt", "cloudflare", None);
    no_domains.domains.clear();
    cfg.certificates.insert("b".to_string(), no_domains);
    match cfg.validate() {
        Err(e @ ZenithConfigError::NoDomains(_)) => assert_eq!(e.message(), "Certificate 'b' has no domains specified"),
        _ => panic!("expected missing domains"),
    }
    let mut no_email = cert_config("b", "letsencrypt", "cloudflare", None);
    no_email.account_email.clear();
    cfg.certificates.insert("b".to_string(), no_email);
    match cfg.validate() {
        Err(e @ ZenithConfigError::NoAccountEmail(_)) => assert_eq!(e.message(), "Certificate 'b' has no account email"),
        _ => panic!("expected a missing email"),
    }
    assert!(matches!(Config::load(None), Err(ZenithConfigError::NoConfigFile)));
    assert!(matches!(Config::load(Some(cfg)), Err(ZenithConfigError::NoAccountEmail(_))));
}

#[test]
fn dns_provider_names() {
    assert!(DnsProviders { cloudflare: None }.names().is_empty());
    let p = DnsProviders { cloudflare: Some(CloudflareConfig { api_key: "k".to_string() }) };
    assert_eq!(p.names(), vec!["cloudflare"]);
}

#[test]
fn manager_uses_the_store_location() {
    let m = CertificateManager::new("c1", cert_config("c1", "letsencrypt", "cloudflare", Some("/tmp/r.sock")), &StoreLocation::Local {
        path: "/var/lib/zenith".to_string(),
    })
    .ok()
    .unwrap();
    assert_eq!(m.name(), "c1");
    assert!(matches!(m.acme_provider(), AcmeProviderType::LetsEncryptProduction));
    match m.store() {
        Store::Local(s) => assert_eq!(s.path, "/var/lib/zenith/c1"),
        _ => panic!("expected a local store"),
    }
    assert_eq!(m.control_socket().as_ref().unwrap().socket_path(), "/tmp/r.sock");
    assert!(!m.is_renewal_in_progress());
    assert!(!m.is_discarded());
    let v = CertificateManager::new("c2", cert_config("c2", "zerossl", "none", None), &StoreLocation::Vault).ok().unwrap();
    match v.store() {
        Store::Vault(s) => assert_eq!(s.id, "c2"),
        _ => panic!("expected a vault store"),
    }
    assert!(CertificateManager::new("c3", cert_config("c3", "nope", "cloudflare", None), &StoreLocation::Vault).is_err());
}

#[test]
fn renewal_flag_follows_begin_and_finish() {
    let mut m = CertificateManager::new("c1", cert_config("c1", "letsencrypt", "cloudflare", None), &StoreLocation::Vault).ok().unwrap();
    assert!(!m.begin_renewal(false));
    assert!(!m.is_renewal_in_progress());
    assert!(m.begin_renewal(true));
    assert!(m.is_renewal_in_progress());
    m.finish_renewal();
    assert!(!m.is_renewal_in_progress());
    m.mark_discarded();
    assert!(m.is_discarded());
}

#[test]
fn renewal_loop_gives_up_after_five_failures() {
    let mut l = RenewalLoop::new();
    assert!(l.should_check(false));
    assert!(!l.should_check(true));
    for _ in 0..4 {
        assert!(matches!(l.after_check(false), RenewalStep::Wait(RETRY_DELAY_SECS)));
    }
    assert!(matches!(l.after_check(false), RenewalStep::Stop));
    let mut l = RenewalLoop::new();
    l.after_check(false);
    l.after_check(false);
    assert!(matches!(l.after_check(true), RenewalStep::Wait(CHECK_INTERVAL_SECS)));
    assert_eq!(l.failures, 0);
    assert_eq!(RETRY_DELAY_SECS, 300);
    assert_eq!(CHECK_INTERVAL_SECS, 86400);
}

#[test]
fn challenge_provider_is_needed() {
    let names = vec!["cloudflare".to_string()];
    assert!(challenge_available(&names, &cert_config("a", "letsencrypt", "cloudflare", None)));
    assert!(!challenge_available(&names, &cert_config("a", "letsencrypt", "route53", None)));
    assert!(challenge_available(&names, &cert_config("a", "letsencrypt", "route53", Some("/tmp/s"))));
}

#[test]
fn local_store_files() {
    let s = LocalStore::new("/data", "c1");
    assert_eq!(s.path, "/data/c1");
    assert_eq!(s.account_key_path(), "/data/c1/account.key");
    assert_eq!(s.cert_key_path(), "/data/c1/cert.key");
    assert_eq!(s.cert_path(), "/data/c1/cert.pem");
    assert_eq!(s.chain_path(), "/data/c1/chain.pem");
    assert_eq!(s.fullchain_path(), "/data/c1/fullchain.pem");
    assert_eq!(LocalStore::fullchain("CERT\n", "CHAIN\n"), "CERT\nCHAIN\n");
    assert_eq!(VaultStore::new("v".to_string()).id, "v");
}

#[test]
fn certificate_needs_all_three_parts() {
    let c = Certificate::from_parts(Some(vec![1]), Some(vec![2]), Some(vec![3])).unwrap();
    assert_eq!((c.key, c.cert, c.chain), (vec![1], vec![2], vec![3]));
    assert!(Certificate::from_parts(None, Some(vec![2]), Some(vec![3])).is_none());
    assert!(Certificate::from_parts(Some(vec![1]), Some(vec![2]), None).is_none());
}

#[test]
fn control_socket_adds_and_finds_certificates() {
    let mut s = server();
    let added = s.handle_command(ControlCommand::AddCertificate {
        certificate: cert_config("c1", "letsencrypt", "cloudflare", None),
        id: "c1".to_string(),
    });
    assert!(matches!(added, ZenithAction::Respond(Ok(()))));
    assert_eq!(s.get_certificate("c1").unwrap().name, "c1");
    assert!(s.subscribe("c1").is_ok());
    let list = s.list_certificates();
    assert_eq!(list.len(), 1);
    assert_eq!(list[0].0, "c1");
    let dup = s.handle_command(ControlCommand::AddCertificate {
        certificate: cert_config("c1", "letsencrypt", "cloudflare", None),
        id: "c1".to_string(),
    });
    assert!(matches!(dup, ZenithAction::Respond(Err(ControlError::CertificateAlreadyExists))));
}

#[test]
fn control_socket_refusals() {
    let mut s = server();
    let no_dns = s.handle_command(ControlCommand::AddCertificate {
        certificate: cert_config("c2", "letsencrypt", "route53", None),
        id: "c2".to_string(),
    });
    assert!(matches!(no_dns, ZenithAction::Respond(Err(ControlError::NoDnsProviderConfigured))));
    let bad_acme = s.handle_command(ControlCommand::AddCertificate {
        certificate: cert_config("c3", "nonsense", "cloudflare", None),
        id: "c3".to_string(),
    });
    assert!(matches!(bad_acme, ZenithAction::Respond(Err(ControlError::CertificateAdditionFailed))));
    assert!(matches!(s.get_certificate("c3"), Err(ControlError::CertificateNotFound)));
    assert!(matches!(s.subscribe("c3"), Err(ControlError::CertificateNotFound)));
    assert!(matches!(
        s.handle_command(ControlCommand::GetRenewStatus { id: "zz".to_string() }),
        ZenithAction::Respond(Err(ControlError::CertificateNotFound))
    ));
    assert!(matches!(
        s.handle_command(ControlCommand::ForceRenew { id: "zz".to_string() }),
        ZenithAction::Respond(Err(ControlError::CertificateNotFound))
    ));
    assert!(matches!(
        s.handle_command(ControlCommand::RemoveCertificate { id: "zz".to_string() }),
        ZenithAction::Respond(Err(ControlError::CertificateNotFound))
    ));
}

#[test]
fn control_socket_renewal_and_removal() {
    let mut s = server();
    s.add_certificate(cert_config("c1", "letsencrypt", "cloudflare", None), "c1".to_string()).unwrap();
    assert!(matches!(s.handle_command(ControlCommand::GetRenewStatus { id: "c1".to_string() }), ZenithAction::ShowRenewStatus(false)));
    match s.handle_command(ControlCommand::ForceRenew { id: "c1".to_string() }) {
        ZenithAction::StartRenewal(id) => assert_eq!(id, "c1"),
        _ => panic!("expected a renewal"),
    }
    let removed = s.remove_certificate("c1").ok().unwrap();
    assert!(removed.is_discarded());
    assert!(matches!(s.get_certificate("c1"), Err(ControlError::CertificateNotFound)));
    assert!(matches!(s.handle_command(ControlCommand::ListCertificates), ZenithAction::ShowCertificates));
    match s.handle_command(ControlCommand::GetCertificate { id: "x".to_string() }) {
        ZenithAction::ShowCertificate(id) => assert_eq!(id, "x"),
        _ => panic!("expected a lookup"),
    }
}
