//! The decisions of the raw TCP and UDP forwarders: which upstream a
//! connection goes to, how an upstream address splits into host and port,
//! and the table of UDP sessions: which client datagram reuses which
//! upstream socket, and when an idle session is dropped.
use vstd::prelude::*;
use dashmap::DashMap;
use crate::radiance_types::ServerConfig;
use crate::text::{
    decimal, last_index_of, lemma_decimal_digits, lemma_digits_no_colon, lemma_last_index_of_append, parse_u16,
    parse_u16_spec, rfind_char,
};

verus! {

/// How long a UDP session may stay idle, in seconds.
pub const UDP_SESSION_TIMEOUT_SECS: u64 = 60;

/// How often idle UDP sessions are looked for, in seconds.
pub const UDP_CLEANUP_INTERVAL_SECS: u64 = 30;

/// How often idle UDP sessions are looked for, in milliseconds.
pub const UDP_CLEANUP_INTERVAL_MS: u64 = 30000;

/// The size of the buffer a TCP client is read into.
pub const TCP_BUFFER_SIZE: usize = 8192;

/// The size of the buffer a UDP datagram is received into.
pub const UDP_BUFFER_SIZE: usize = 65536;

/// Why an upstream address was refused.
#[derive(Clone, Copy, Debug)]
pub enum AddressError {
    MissingPort,
    InvalidPort,
}

impl AddressError {
    /// The message that describes the error.
    pub fn message(&self) -> (m: &'static str)
        ensures
            match self {
                AddressError::MissingPort => m@ == "Invalid address format: missing port"@,
                AddressError::InvalidPort => m@ == "Invalid port number"@,
            },
    {
        match self {
            AddressError::MissingPort => "Invalid address format: missing port",
            AddressError::InvalidPort => "Invalid port number",
        }
    }
}

/// Why a connection could not be forwarded.
#[derive(Clone, Copy, Debug)]
pub enum UpstreamError {
    NoUpstreams,
}

impl UpstreamError {
    /// The message that describes the error.
    pub fn message(&self) -> (m: &'static str)
        ensures
            m@ == "No upstreams configured"@,
    {
        "No upstreams configured"
    }
}

/// Splits an address at its last colon into host and port.
pub fn parse_address(address: &str) -> (r: Result<(String, u16), AddressError>)
    ensures
        last_index_of(address@, ':') == -1 ==> r matches Err(AddressError::MissingPort),
        ({
            let i = last_index_of(address@, ':');
            i >= 0 ==> match parse_u16_spec(address@.subrange(i + 1, address@.len() as int)) {
                None => r matches Err(AddressError::InvalidPort),
                Some(p) => r matches Ok((h, q)) && h@ == address@.subrange(0, i) && q == p,
            }
        }),
{
    match rfind_char(address, ':') {
        Some(colon) => {
            let n = address.unicode_len();
            let host = address.substring_char(0, colon);
            let port_part = address.substring_char(colon + 1, n);
            match parse_u16(port_part) {
                Some(port) => Ok((String::from_str(host), port)),
                None => Err(AddressError::InvalidPort),
            }
        },
        None => Err(AddressError::MissingPort),
    }
}

/// An address written as a host, a colon and a port in decimal splits back
/// into that host and port, whatever colons the host holds.
pub proof fn law_parse_address_roundtrip(host: Seq<char>, port: u16)
    ensures
        ({
            let a = host + ":"@ + decimal(port as nat);
            &&& last_index_of(a, ':') == host.len()
            &&& a.subrange(0, host.len() as int) == host
            &&& parse_u16_spec(a.subrange(host.len() as int + 1, a.len() as int)) == Some(port)
        }),
{
    reveal_strlit(":");
    let d = decimal(port as nat);
    lemma_decimal_digits(port as nat);
    lemma_digits_no_colon(d);
    let hc = host + ":"@;
    let a = hc + d;
    lemma_last_index_of_append(hc, d, ':');
    assert(hc.last() == ':');
    assert(a.subrange(0, host.len() as int) =~= host);
    assert(a.subrange(host.len() as int + 1, a.len() as int) =~= d);
}

/// The upstream a new connection goes to: the first one.
pub fn first_upstream(upstreams: &Vec<ServerConfig>) -> (r: Result<&ServerConfig, UpstreamError>)
    ensures
        upstreams@.len() == 0 ==> r matches Err(UpstreamError::NoUpstreams),
        upstreams@.len() > 0 ==> (r matches Ok(u) && *u == upstreams@[0]),
{
    if upstreams.len() == 0 {
        Err(UpstreamError::NoUpstreams)
    } else {
        Ok(&upstreams[0])
    }
}

/// Whether a UDP session last active at `last_activity` has been idle for
/// longer than `timeout` at `now` (all in the same unit; a time before the
/// last activity counts as no time passed).
pub open spec fn expired_at(now: u64, last_activity: u64, timeout: u64) -> bool {
    now > last_activity && now - last_activity > timeout
}

/// Whether a UDP session last active at `last_activity` has been idle for
/// longer than `timeout` at `now`.
pub fn session_expired(now: u64, last_activity: u64, timeout: u64) -> (b: bool)
    ensures
        b == expired_at(now, last_activity, timeout),
{
    now > last_activity && now - last_activity > timeout
}

/// Whether a UDP session last active at `last_activity` is still kept at
/// `now`.
pub fn session_fresh(now: u64, last_activity: u64, timeout: u64) -> (b: bool)
    ensures
        b == !expired_at(now, last_activity, timeout),
{
    !session_expired(now, last_activity, timeout)
}

/// How long a UDP session may stay idle, in milliseconds.
pub const UDP_SESSION_TIMEOUT_MS: u64 = 60000;

/// A UDP session: the upstream socket that carries its datagrams (by the
/// number the forwarder gave it) and when it was last active, in
/// milliseconds.
#[derive(Clone, Copy, Debug)]
pub struct UdpSessionState {
    pub upstream: u64,
    pub last_activity_ms: u64,
}

/// What a client's datagram comes to.
#[derive(Clone, Copy, Debug)]
pub enum ClientPacketAction {
    /// Send it through the session's upstream socket, this one.
    Reuse(u64),
    /// Open a new upstream socket and record the session.
    Create,
}

/// A concurrent map of UDP sessions by transport name and client address.
pub type UdpSessionMap = DashMap<(String, String), UdpSessionState>;

/// What a concurrent map of UDP sessions holds: the session under each
/// (transport name, client address).
pub uninterp spec fn udp_session_contents(m: UdpSessionMap) -> Map<(Seq<char>, Seq<char>), UdpSessionState>;

/// `DashMap::new`: a map that holds nothing.
#[verifier::external_body]
fn udp_map_new() -> (m: UdpSessionMap)
    ensures
        udp_session_contents(m).dom() == Set::<(Seq<char>, Seq<char>)>::empty(),
{
    DashMap::new()
}

/// `DashMap::get`: a copy of the session under the key, where there is one.
#[verifier::external_body]
fn udp_map_get(m: &UdpSessionMap, transport: &str, client: &str) -> (r: Option<UdpSessionState>)
    ensures
        udp_session_contents(*m).contains_key((transport@, client@)) <==> r is Some,
        (r matches Some(s) ==> s == udp_session_contents(*m)[(transport@, client@)]),
{
    m.get(&(transport.to_string(), client.to_string())).map(|e| *e)
}

/// `DashMap::insert`: the session is recorded under the key, in place of
/// any recorded there before.
#[verifier::external_body]
fn udp_map_insert(m: &mut UdpSessionMap, transport: &str, client: &str, value: UdpSessionState)
    ensures
        udp_session_contents(*final(m)) == udp_session_contents(*old(m)).insert((transport@, client@), value),
{
    m.insert((transport.to_string(), client.to_string()), value);
}

/// `DashMap::remove`: the session under the key is taken out, where there
/// is one.
#[verifier::external_body]
fn udp_map_remove(m: &mut UdpSessionMap, transport: &str, client: &str)
    ensures
        udp_session_contents(*final(m)) == udp_session_contents(*old(m)).remove((transport@, client@)),
{
    m.remove(&(transport.to_string(), client.to_string()));
}

/// `DashMap::retain` with `session_fresh`: keeps exactly the sessions not
/// idle for longer than `timeout_ms` at `now_ms`, unchanged.
#[verifier::external_body]
fn udp_map_retain_fresh(m: &mut UdpSessionMap, now_ms: u64, timeout_ms: u64)
    ensures
        udp_session_contents(*final(m)) == fresh_sessions(udp_session_contents(*old(m)), now_ms, timeout_ms),
{
    m.retain(|_, s| session_fresh(now_ms, s.last_activity_ms, timeout_ms));
}

/// The sessions of a table that are not idle for longer than `timeout` at `now`.
pub open spec fn fresh_sessions(
    table: Map<(Seq<char>, Seq<char>), UdpSessionState>,
    now: u64,
    timeout: u64,
) -> Map<(Seq<char>, Seq<char>), UdpSessionState> {
    Map::new(
        |k: (Seq<char>, Seq<char>)| table.contains_key(k) && !expired_at(now, table[k].last_activity_ms, timeout),
        |k: (Seq<char>, Seq<char>)| table[k],
    )
}

/// The table and action after a client's datagram arrives at `now`: a
/// known session is reused with its activity refreshed; an unknown one is
/// to be created, the table unchanged until it is.
pub open spec fn client_packet_spec(
    table: Map<(Seq<char>, Seq<char>), UdpSessionState>,
    key: (Seq<char>, Seq<char>),
    now: u64,
) -> (Map<(Seq<char>, Seq<char>), UdpSessionState>, ClientPacketAction) {
    if table.contains_key(key) {
        (
            table.insert(key, UdpSessionState { upstream: table[key].upstream, last_activity_ms: now }),
            ClientPacketAction::Reuse(table[key].upstream),
        )
    } else {
        (table, ClientPacketAction::Create)
    }
}

/// The table after a datagram from the upstream of a session arrives at
/// `now`: its activity is refreshed, where the session is still there.
pub open spec fn upstream_packet_spec(
    table: Map<(Seq<char>, Seq<char>), UdpSessionState>,
    key: (Seq<char>, Seq<char>),
    now: u64,
) -> Map<(Seq<char>, Seq<char>), UdpSessionState> {
    if table.contains_key(key) {
        table.insert(key, UdpSessionState { upstream: table[key].upstream, last_activity_ms: now })
    } else {
        table
    }
}

/// The UDP sessions of the forwarders.
pub struct UdpSessions {
    sessions: UdpSessionMap,
}

impl UdpSessions {
    /// The session under each (transport name, client address).
    pub closed spec fn table(&self) -> Map<(Seq<char>, Seq<char>), UdpSessionState> {
        udp_session_contents(self.sessions)
    }

    /// No session.
    pub fn new() -> (s: UdpSessions)
        ensures
            s.table().dom() == Set::<(Seq<char>, Seq<char>)>::empty(),
    {
        UdpSessions { sessions: udp_map_new() }
    }

    /// A client's datagram arrives at `now_ms`: it goes through the upstream
    /// socket of the client's session, whose activity is refreshed, or a new
    /// session is to be created.
    pub fn on_client_packet(&mut self, transport: &str, client: &str, now_ms: u64) -> (a: ClientPacketAction)
        ensures
            (final(self).table(), a) == client_packet_spec(old(self).table(), (transport@, client@), now_ms),
    {
        match udp_map_get(&self.sessions, transport, client) {
            Some(s) => {
                udp_map_insert(&mut self.sessions, transport, client, UdpSessionState { upstream: s.upstream, last_activity_ms: now_ms });
                ClientPacketAction::Reuse(s.upstream)
            },
            None => ClientPacketAction::Create,
        }
    }

    /// Records a new session, active at `now_ms`, with its upstream socket.
    pub fn session_created(&mut self, transport: &str, client: &str, upstream: u64, now_ms: u64)
        ensures
            final(self).table() == old(self).table().insert(
                (transport@, client@),
                UdpSessionState { upstream, last_activity_ms: now_ms },
            ),
    {
        udp_map_insert(&mut self.sessions, transport, client, UdpSessionState { upstream, last_activity_ms: now_ms });
    }

    /// A datagram from a session's upstream arrives at `now_ms`: the
    /// session's activity is refreshed, where it is still there.
    pub fn upstream_packet(&mut self, transport: &str, client: &str, now_ms: u64)
        ensures
            final(self).table() == upstream_packet_spec(old(self).table(), (transport@, client@), now_ms),
    {
        match udp_map_get(&self.sessions, transport, client) {
            Some(s) => udp_map_insert(&mut self.sessions, transport, client, UdpSessionState { upstream: s.upstream, last_activity_ms: now_ms }),
            None => {},
        }
    }

    /// The relay of a session has ended (its upstream timed out or failed):
    /// the session is dropped.
    pub fn relay_ended(&mut self, transport: &str, client: &str)
        ensures
            final(self).table() == old(self).table().remove((transport@, client@)),
    {
        udp_map_remove(&mut self.sessions, transport, client);
    }

    /// Drops the sessions idle for longer than the session timeout at `now_ms`.
    pub fn sweep(&mut self, now_ms: u64)
        ensures
            final(self).table() == fresh_sessions(old(self).table(), now_ms, UDP_SESSION_TIMEOUT_MS),
    {
        udp_map_retain_fresh(&mut self.sessions, now_ms, UDP_SESSION_TIMEOUT_MS);
    }
}

/// A session once created carries the client's later datagrams through the
/// same upstream socket, refreshed at each, until its relay ends; and a
/// sweep drops exactly the sessions idle past the timeout, keeping the
/// others as they were.
pub proof fn law_session_reused_until_ended(
    table: Map<(Seq<char>, Seq<char>), UdpSessionState>,
    key: (Seq<char>, Seq<char>),
    upstream: u64,
    created_at: u64,
    now: u64,
)
    ensures
        ({
            let t1 = table.insert(key, UdpSessionState { upstream, last_activity_ms: created_at });
            let (t2, a) = client_packet_spec(t1, key, now);
            &&& a == ClientPacketAction::Reuse(upstream)
            &&& t2[key] == UdpSessionState { upstream, last_activity_ms: now }
            &&& client_packet_spec(t2.remove(key), key, now).1 == ClientPacketAction::Create
        }),
        forall|k: (Seq<char>, Seq<char>)|
            #[trigger] fresh_sessions(table, now, UDP_SESSION_TIMEOUT_MS).contains_key(k) <==> (table.contains_key(k)
                && !expired_at(now, table[k].last_activity_ms, UDP_SESSION_TIMEOUT_MS)),
{
}

/// The table after sweeps at the given times, in order, with nothing else
/// happening to it.
pub open spec fn sweep_all(
    table: Map<(Seq<char>, Seq<char>), UdpSessionState>,
    times: Seq<u64>,
) -> Map<(Seq<char>, Seq<char>), UdpSessionState>
    decreases times.len(),
{
    if times.len() == 0 {
        table
    } else {
        fresh_sessions(sweep_all(table, times.drop_last()), times.last(), UDP_SESSION_TIMEOUT_MS)
    }
}

proof fn lemma_sweep_all_keeps_or_drops(
    table: Map<(Seq<char>, Seq<char>), UdpSessionState>,
    times: Seq<u64>,
    k: (Seq<char>, Seq<char>),
)
    ensures
        sweep_all(table, times).contains_key(k) ==> table.contains_key(k) && sweep_all(table, times)[k] == table[k]
            && forall|i: int| 0 <= i < times.len() ==> !expired_at(#[trigger] times[i], table[k].last_activity_ms, UDP_SESSION_TIMEOUT_MS),
        (table.contains_key(k) && forall|i: int|
            0 <= i < times.len() ==> !expired_at(#[trigger] times[i], table[k].last_activity_ms, UDP_SESSION_TIMEOUT_MS))
            ==> sweep_all(table, times).contains_key(k),
    decreases times.len(),
{
    if times.len() > 0 {
        let p = times.drop_last();
        lemma_sweep_all_keeps_or_drops(table, p, k);
        if sweep_all(table, times).contains_key(k) {
            assert forall|i: int| 0 <= i < times.len() implies !expired_at(
                #[trigger] times[i],
                table[k].last_activity_ms,
                UDP_SESSION_TIMEOUT_MS,
            ) by {
                if i < p.len() {
                    assert(p[i] == times[i]);
                }
            }
        }
        if table.contains_key(k) && forall|i: int|
            0 <= i < times.len() ==> !expired_at(#[trigger] times[i], table[k].last_activity_ms, UDP_SESSION_TIMEOUT_MS) {
            assert forall|i: int| 0 <= i < p.len() implies !expired_at(
                #[trigger] p[i],
                table[k].last_activity_ms,
                UDP_SESSION_TIMEOUT_MS,
            ) by {
                assert(p[i] == times[i]);
            }
            assert(!expired_at(times[times.len() - 1], table[k].last_activity_ms, UDP_SESSION_TIMEOUT_MS));
        }
    }
}

/// Sweeps drop an idle session and keep a live one: over any run of sweeps
/// with no activity in between, a session is gone once any sweep comes more
/// than the timeout after its last activity, and otherwise stays exactly as
/// it was; no session is ever added. With a sweep every
/// `UDP_CLEANUP_INTERVAL_MS`, a session idle since `t0` is gone by
/// `t0 + UDP_SESSION_TIMEOUT_MS + UDP_CLEANUP_INTERVAL_MS`.
pub proof fn law_idle_sessions_swept(
    table: Map<(Seq<char>, Seq<char>), UdpSessionState>,
    times: Seq<u64>,
    k: (Seq<char>, Seq<char>),
)
    ensures
        sweep_all(table, times).dom().subset_of(table.dom()),
        table.contains_key(k) && (exists|i: int|
            0 <= i < times.len() && expired_at(#[trigger] times[i], table[k].last_activity_ms, UDP_SESSION_TIMEOUT_MS))
            ==> !sweep_all(table, times).contains_key(k),
        table.contains_key(k) && (forall|i: int|
            0 <= i < times.len() ==> !expired_at(#[trigger] times[i], table[k].last_activity_ms, UDP_SESSION_TIMEOUT_MS))
            ==> sweep_all(table, times).contains_key(k) && sweep_all(table, times)[k] == table[k],
        forall|t0: u64, now: u64|
            t0 + UDP_SESSION_TIMEOUT_MS < now ==> #[trigger] expired_at(now, t0, UDP_SESSION_TIMEOUT_MS),
        forall|t0: u64, now: u64|
            now <= t0 + UDP_SESSION_TIMEOUT_MS ==> !#[trigger] expired_at(now, t0, UDP_SESSION_TIMEOUT_MS),
{
    lemma_sweep_all_keeps_or_drops(table, times, k);
    assert forall|q: (Seq<char>, Seq<char>)| sweep_all(table, times).dom().contains(q) implies table.dom().contains(q) by {
        lemma_sweep_all_keeps_or_drops(table, times, q);
    }
}

/// The table after datagrams from the client or from the upstream of a
/// session arrive at the given times, in order.
pub open spec fn relay_steps(
    table: Map<(Seq<char>, Seq<char>), UdpSessionState>,
    key: (Seq<char>, Seq<char>),
    steps: Seq<(bool, u64)>,
) -> Map<(Seq<char>, Seq<char>), UdpSessionState>
    decreases steps.len(),
{
    if steps.len() == 0 {
        table
    } else {
        let before = relay_steps(table, key, steps.drop_last());
        let (from_client, now) = steps.last();
        if from_client {
            client_packet_spec(before, key, now).0
        } else {
            upstream_packet_spec(before, key, now)
        }
    }
}

/// While a session's relay runs, datagrams from its client and from its
/// upstream (in any mix, flagged `true` for the client) keep it with the
/// same upstream socket, last active at the latest of them, and the
/// client's next datagram reuses that socket; once the relay ends the
/// session is gone, and the client's next datagram opens a new one.
pub proof fn law_relay_keeps_session_until_it_ends(
    table: Map<(Seq<char>, Seq<char>), UdpSessionState>,
    key: (Seq<char>, Seq<char>),
    steps: Seq<(bool, u64)>,
    later: u64,
)
    requires
        table.contains_key(key),
    ensures
        ({
            let t = relay_steps(table, key, steps);
            &&& t.contains_key(key)
            &&& t[key].upstream == table[key].upstream
            &&& t[key].last_activity_ms == (if steps.len() == 0 {
                table[key].last_activity_ms
            } else {
                steps.last().1
            })
            &&& client_packet_spec(t, key, later).1 == ClientPacketAction::Reuse(table[key].upstream)
            &&& client_packet_spec(t.remove(key), key, later) == (t.remove(key), ClientPacketAction::Create)
        }),
    decreases steps.len(),
{
    if steps.len() > 0 {
        law_relay_keeps_session_until_it_ends(table, key, steps.drop_last(), later);
    }
}

} // verus!
