use radiance::proxy_config::{Config, FullConfig};
use radiance::keyed_map::KeyedMap;
use radiance::radiance_types::ServerConfig;
use radiance::transport::{
    first_upstream, parse_address, session_expired, AddressError, ClientPacketAction, UdpSessions, UpstreamError,
    UDP_CLEANUP_INTERVAL_MS, UDP_CLEANUP_INTERVAL_SECS, UDP_SESSION_TIMEOUT_MS, UDP_SESSION_TIMEOUT_SECS,
};

#[test]
fn parse_address_splits_at_last_colon() {
    assert_eq!(parse_address("example.com:8080").unwrap(), ("example.com".to_string(), 8080));
    assert_eq!(parse_address("[::1]:443").unwrap(), ("[::1]".to_string(), 443));
    assert_eq!(parse_address(":1").unwrap(), ("".to_string(), 1));
}

#[test]
fn parse_address_errors() {
    assert!(matches!(parse_address("noport"), Err(AddressError::MissingPort)));
    assert!(matches!(parse_address("host:"), Err(AddressError::InvalidPort)));
    assert!(matches!(parse_address("host:70000"), Err(AddressError::InvalidPort)));
    assert_eq!(AddressError::MissingPort.message(), "Invalid address format: missing port");
    assert_eq!(AddressError::InvalidPort.message(), "Invalid port number");
}

#[test]
fn listen_address_parses_back_to_its_port() {
    let cfg = Config {
        listen_port: 8443,
        listen_port_tls: None,
        outpost_listen_port: None,
        hosts: KeyedMap::new(),
        certificates: vec![],
        outposts: None,
        transports: None,
    };
    let full = FullConfig::from_config(cfg);
    let addr = full.listen_address();
    assert_eq!(parse_address(&addr).unwrap(), ("0.0.0.0".to_string(), 8443));
}

#[test]
fn first_upstream_is_chosen() {
    let none: Vec<ServerConfig> = vec![];
    assert!(matches!(first_upstream(&none), Err(UpstreamError::NoUpstreams)));
    assert_eq!(UpstreamError::NoUpstreams.message(), "No upstreams configured");
    let ups = vec![
        ServerConfig::Outpost { address: "10.0.0.1:22".to_string(), id: "o1".to_string() },
        ServerConfig::Local { address: "127.0.0.1:22".to_string() },
    ];
    match first_upstream(&ups).unwrap() {
        ServerConfig::Outpost { id, .. } => assert_eq!(id, "o1"),
        _ => panic!("wrong upstream"),
    }
}

#[test]
fn udp_sessions_expire_after_the_timeout() {
    assert_eq!(UDP_SESSION_TIMEOUT_SECS, 60);
    assert_eq!(UDP_CLEANUP_INTERVAL_SECS, 30);
    assert!(session_expired(100, 30, 60));
    assert!(!session_expired(90, 30, 60));
    assert!(!session_expired(10, 30, 60));
}

#[test]
fn udp_session_is_created_then_reused_until_its_relay_ends() {
    let mut sessions = UdpSessions::new();
    assert!(matches!(sessions.on_client_packet("dns", "10.0.0.1:5353", 1_000), ClientPacketAction::Create));
    assert!(matches!(sessions.on_client_packet("dns", "10.0.0.1:5353", 1_500), ClientPacketAction::Create));
    sessions.session_created("dns", "10.0.0.1:5353", 7, 2_000);
    assert!(matches!(sessions.on_client_packet("dns", "10.0.0.1:5353", 3_000), ClientPacketAction::Reuse(7)));
    assert!(matches!(sessions.on_client_packet("game", "10.0.0.1:5353", 3_000), ClientPacketAction::Create));
    assert!(matches!(sessions.on_client_packet("dns", "10.0.0.2:5353", 3_000), ClientPacketAction::Create));
    sessions.relay_ended("dns", "10.0.0.1:5353");
    assert!(matches!(sessions.on_client_packet("dns", "10.0.0.1:5353", 4_000), ClientPacketAction::Create));
}

#[test]
fn udp_sweep_drops_only_sessions_idle_past_the_timeout() {
    assert_eq!(UDP_SESSION_TIMEOUT_MS, 60_000);
    let mut sessions = UdpSessions::new();
    sessions.session_created("dns", "a:1", 1, 0);
    sessions.session_created("dns", "b:1", 2, 0);
    sessions.session_created("dns", "c:1", 3, 0);
    // activity refreshes the session
    assert!(matches!(sessions.on_client_packet("dns", "b:1", 10_000), ClientPacketAction::Reuse(2)));
    sessions.upstream_packet("dns", "c:1", 30_000);
    sessions.upstream_packet("dns", "missing:1", 30_000);
    sessions.sweep(60_000);
    assert!(matches!(sessions.on_client_packet("dns", "a:1", 60_000), ClientPacketAction::Reuse(1)));
    sessions.sweep(70_001);
    assert!(matches!(sessions.on_client_packet("dns", "b:1", 70_001), ClientPacketAction::Create));
    assert!(matches!(sessions.on_client_packet("dns", "c:1", 70_001), ClientPacketAction::Reuse(3)));
    assert!(matches!(sessions.on_client_packet("dns", "missing:1", 70_001), ClientPacketAction::Create));
}

#[test]
fn idle_session_is_gone_within_timeout_plus_one_interval() {
    assert_eq!(UDP_CLEANUP_INTERVAL_MS, UDP_CLEANUP_INTERVAL_SECS * 1000);
    let mut sessions = UdpSessions::new();
    sessions.session_created("dns", "a:1", 4, 5_000);
    let mut now = 0;
    let mut gone_at = None;
    while now <= 5_000 + UDP_SESSION_TIMEOUT_MS + UDP_CLEANUP_INTERVAL_MS {
        sessions.sweep(now);
        if gone_at.is_none() {
            // a reuse answer refreshes the session to the time it was created at
            if let ClientPacketAction::Create = sessions.on_client_packet("dns", "a:1", 5_000) {
                gone_at = Some(now);
            }
        }
        now += UDP_CLEANUP_INTERVAL_MS;
    }
    let gone_at = gone_at.expect("the idle session is swept");
    assert!(gone_at > 5_000 + UDP_SESSION_TIMEOUT_MS);
    assert!(gone_at <= 5_000 + UDP_SESSION_TIMEOUT_MS + UDP_CLEANUP_INTERVAL_MS);
}
