//! Service configuration: time spans, timeouts, Redis servers and credentials.
use vstd::prelude::*;

use crate::geoip::IpAddress;
use crate::numbers::{parse_unsigned, parse_unsigned_spec};
use crate::text::{find_char, index_of_from, lemma_index_of_from, substring};

verus! {

/// A span of time: whole seconds and the nanoseconds beyond them.
#[derive(Debug, Clone, Copy, PartialEq, Eq, Structural)]
pub struct Duration {
    pub secs: u64,
    /// Always below one billion.
    pub nanos: u32,
}

impl Duration {
    /// The nanoseconds part is below one second.
    pub open spec fn wf(&self) -> bool {
        self.nanos < 1_000_000_000
    }

    /// The length of the span in nanoseconds.
    pub open spec fn total_nanos(&self) -> int {
        self.secs * 1_000_000_000 + self.nanos
    }

    /// A span of `secs` whole seconds.
    pub fn from_secs(secs: u64) -> (res: Duration)
        ensures
            res.secs == secs,
            res.nanos == 0,
    {
        Duration { secs, nanos: 0 }
    }

    /// The whole seconds of the span.
    pub fn as_secs(&self) -> (res: u64)
        ensures
            res == self.secs,
    {
        self.secs
    }
}

/// A span of `mins` minutes.
pub fn minutes(count: u64) -> (res: Duration)
    requires
        count * 60 <= u64::MAX,
    ensures
        res.secs == count * 60,
        res.nanos == 0,
{
    Duration::from_secs(count * 60)
}

/// A span of `hours` hours.
pub fn hours(count: u64) -> (res: Duration)
    requires
        count * 3600 <= u64::MAX,
    ensures
        res.secs == count * 3600,
        res.nanos == 0,
{
    minutes(count * 60)
}

/// A span of `days` days.
pub fn days(count: u64) -> (res: Duration)
    requires
        count * 86400 <= u64::MAX,
    ensures
        res.secs == count * 86400,
        res.nanos == 0,
{
    hours(count * 24)
}

/// How long requests, sessions, tokens and pending requests stay valid.
#[derive(Debug, Clone, Copy)]
pub struct TimeoutConfig {
    /// The largest difference allowed between a signed request's timestamp and the server's clock.
    pub max_request_diff: Duration,
    pub user_session: Duration,
    pub mfa: Duration,
    pub user_session_token: Duration,
    pub new_user_email_request: Duration,
    pub user_session_request: Duration,
    pub magic_link_request: Duration,
}

impl Default for TimeoutConfig {
    fn default() -> (res: Self)
        ensures
            res.max_request_diff == (Duration { secs: 120, nanos: 0 }),
            res.user_session == (Duration { secs: 2_592_000, nanos: 0 }),
            res.mfa == (Duration { secs: 300, nanos: 0 }),
            res.user_session_token == (Duration { secs: 14_400, nanos: 0 }),
            res.new_user_email_request == (Duration { secs: 3600, nanos: 0 }),
            res.user_session_request == (Duration { secs: 300, nanos: 0 }),
            res.magic_link_request == (Duration { secs: 900, nanos: 0 }),
    {
        TimeoutConfig {
            max_request_diff: minutes(2),
            user_session: days(30),
            mfa: minutes(5),
            user_session_token: hours(4),
            new_user_email_request: hours(1),
            user_session_request: minutes(5),
            magic_link_request: minutes(15),
        }
    }
}

/// The OAuth2 client credentials issued by Google.
#[derive(Debug, Clone)]
pub struct GoogleOAuth2Config {
    pub client_id: String,
    pub client_secret: String,
}

impl Default for GoogleOAuth2Config {
    fn default() -> (res: Self)
        ensures
            res.client_id@ == Seq::<char>::empty(),
            res.client_secret@ == Seq::<char>::empty(),
    {
        GoogleOAuth2Config { client_id: String::new(), client_secret: String::new() }
    }
}

/// The files that hold the mutual-TLS root certificate, the service certificate and its key.
#[derive(Debug, Clone)]
pub struct MtlsConfig {
    pub root_cert_path: String,
    pub cert_path: String,
    pub key_path: String,
}

impl Default for MtlsConfig {
    fn default() -> (res: Self)
        ensures
            res.root_cert_path@ == Seq::<char>::empty(),
            res.cert_path@ == Seq::<char>::empty(),
            res.key_path@ == Seq::<char>::empty(),
    {
        MtlsConfig { root_cert_path: String::new(), cert_path: String::new(), key_path: String::new() }
    }
}

/// The Redis servers to connect to and how.
#[derive(Debug, Clone)]
pub struct RedisConfig {
    /// `host` or `host:port` for each server.
    pub servers: Vec<String>,
    pub username: Option<String>,
    pub password: Option<String>,
    pub database: u8,
    pub pool_size: usize,
}

impl Default for RedisConfig {
    fn default() -> (res: Self)
        ensures
            res.servers@.len() == 1,
            res.servers@[0]@ == "localhost:6379"@,
            res.username is None,
            res.password is None,
            res.database == 0,
            res.pool_size == 10,
    {
        let mut servers: Vec<String> = Vec::new();
        servers.push(String::from_str("localhost:6379"));
        RedisConfig { servers, username: None, password: None, database: 0, pool_size: 10 }
    }
}

/// The port a Redis server listens on when its address names none.
pub const DEFAULT_REDIS_PORT: u16 = 6379;

/// A Redis server address.
#[derive(Debug, Clone)]
pub struct RedisServer {
    pub host: String,
    pub port: u16,
}

/// A single Redis server, or a cluster of them.
#[derive(Debug, Clone)]
pub enum RedisServerLayout {
    Centralized(RedisServer),
    Clustered(Vec<RedisServer>),
}

/// Why the Redis configuration cannot be used.
#[derive(Debug, Clone, Copy, PartialEq, Eq, Structural)]
pub enum RedisConfigError {
    /// The port of a server address is not a number from 0 to 65535.
    InvalidPort,
}

/// The host of a server address: the text before its first `:`.
pub open spec fn server_host(s: Seq<char>) -> Seq<char> {
    s.take(index_of_from(s, ':', 0))
}

/// The port text of a server address with a `:`: the text after the first `:` and before the second.
pub open spec fn server_port_text(s: Seq<char>) -> Seq<char> {
    let i = index_of_from(s, ':', 0);
    s.subrange(i + 1, index_of_from(s, ':', i + 1))
}

/// The server an address denotes: its host, and its port (6379 where it names none).
pub open spec fn server_spec(s: Seq<char>) -> Option<(Seq<char>, u16)> {
    if index_of_from(s, ':', 0) >= s.len() {
        Some((s, DEFAULT_REDIS_PORT))
    } else {
        match parse_unsigned_spec(server_port_text(s), 65535) {
            Some(p) => Some((server_host(s), p as u16)),
            None => None,
        }
    }
}

/// Reads a Redis server address, `host` or `host:port`.
pub fn parse_server(server: &str) -> (res: Result<RedisServer, RedisConfigError>)
    ensures
        match server_spec(server@) {
            Some((h, p)) => res matches Ok(r) && r.host@ == h && r.port == p,
            None => res == Err::<RedisServer, RedisConfigError>(RedisConfigError::InvalidPort),
        },
{
    let n = server.unicode_len();
    let i = find_char(server, ':', 0);
    proof {
        lemma_index_of_from(server@, ':', 0);
    }
    if i >= n {
        assert(server@.subrange(0, n as int) =~= server@);
        return Ok(RedisServer { host: substring(server, 0, n), port: DEFAULT_REDIS_PORT });
    }
    let j = find_char(server, ':', i + 1);
    proof {
        lemma_index_of_from(server@, ':', i + 1);
    }
    let port_text = substring(server, i + 1, j);
    match parse_unsigned(port_text.as_str(), 65535) {
        Some(p) => {
            assert(server@.subrange(0, i as int) =~= server_host(server@));
            Ok(RedisServer { host: substring(server, 0, i), port: p as u16 })
        },
        None => Err(RedisConfigError::InvalidPort),
    }
}

/// `layout` is the layout that the addresses `servers` describe: one address is a
/// centralized setup of the server it denotes, any other number a cluster of the servers they
/// denote, in order.
pub open spec fn is_layout_of(servers: Seq<String>, layout: RedisServerLayout) -> bool {
    if servers.len() == 1 {
        layout matches RedisServerLayout::Centralized(r) && server_spec(servers[0]@) == Some(
            (r.host@, r.port),
        )
    } else {
        layout matches RedisServerLayout::Clustered(v) && v@.len() == servers.len() && forall|k: int|
            0 <= k < v@.len() ==> server_spec(servers[k]@) == Some((#[trigger] v@[k].host@, v@[k].port))
    }
}

impl RedisConfig {
    /// The layout that the servers describe: one server is a centralized setup, any other
    /// number a cluster of them.
    pub fn server_layout(&self) -> (res: Result<RedisServerLayout, RedisConfigError>)
        ensures
            self.servers@.len() == 1 ==> match server_spec(self.servers@[0]@) {
                Some((h, p)) => res matches Ok(RedisServerLayout::Centralized(r)) && r.host@ == h
                    && r.port == p,
                None => res is Err,
            },
            self.servers@.len() != 1 ==> (res is Ok <==> forall|k: int|
                0 <= k < self.servers@.len() ==> (server_spec(#[trigger] self.servers@[k]@) is Some)),
            self.servers@.len() != 1 ==> (res matches Ok(l) ==> l matches RedisServerLayout::Clustered(v)
                && v@.len() == self.servers@.len() && forall|k: int|
                0 <= k < v@.len() ==> server_spec(self.servers@[k]@) == Some(
                    (#[trigger] v@[k].host@, v@[k].port),
                )),
    {
        if self.servers.len() == 1 {
            let s = parse_server(self.servers[0].as_str())?;
            return Ok(RedisServerLayout::Centralized(s));
        }
        let mut hosts: Vec<RedisServer> = Vec::new();
        let mut k: usize = 0;
        while k < self.servers.len()
            invariant
                k <= self.servers@.len(),
                hosts@.len() == k,
                forall|m: int| 0 <= m < k ==> (server_spec(#[trigger] self.servers@[m]@) is Some),
                forall|m: int|
                    0 <= m < k ==> server_spec(self.servers@[m]@) == Some(
                        (#[trigger] hosts@[m].host@, hosts@[m].port),
                    ),
            decreases self.servers@.len() - k,
        {
            let r = parse_server(self.servers[k].as_str());
            match r {
                Ok(s) => hosts.push(s),
                Err(e) => {
                    return Err(e);
                },
            }
            k = k + 1;
        }
        Ok(RedisServerLayout::Clustered(hosts))
    }
}

/// How the Redis client connects: the servers, the database, the credentials and the size of
/// its pool. A client fails fast: it gives up on a connection error instead of retrying.
#[derive(Debug, Clone)]
pub struct RedisClientSettings {
    pub layout: RedisServerLayout,
    pub database: Option<u8>,
    pub fail_fast: bool,
    pub username: Option<String>,
    pub password: Option<String>,
    pub pool_size: usize,
}

impl RedisConfig {
    /// The settings of the Redis client pool that this configuration describes.
    pub fn client_settings(&self) -> (res: Result<RedisClientSettings, RedisConfigError>)
        ensures
            res is Ok <==> forall|k: int|
                0 <= k < self.servers@.len() ==> (server_spec(#[trigger] self.servers@[k]@) is Some),
            res matches Ok(s) ==> {
                &&& s.database == Some(self.database)
                &&& s.fail_fast
                &&& s.username == self.username
                &&& s.password == self.password
                &&& s.pool_size == self.pool_size
                &&& is_layout_of(self.servers@, s.layout)
            },
    {
        let layout = self.server_layout()?;
        Ok(RedisClientSettings {
            layout,
            database: Some(self.database),
            fail_fast: true,
            username: self.username.clone(),
            password: self.password.clone(),
            pool_size: self.pool_size,
        })
    }
}

/// Where the dashboard that links in e-mails point to lives.
#[derive(Debug, Clone)]
pub enum DashboardOrigin {
    /// A fixed origin, as a URL.
    Static(String),
    /// The origin of each request.
    FromRequest,
}

impl Default for DashboardOrigin {
    fn default() -> (res: Self)
        ensures
            res matches DashboardOrigin::Static(u) && u@ == "https://dashboard.scuffle.cloud/"@,
    {
        DashboardOrigin::Static(String::from_str("https://dashboard.scuffle.cloud/"))
    }
}

impl DashboardOrigin {
    /// The configured origin, if it is a fixed one.
    pub fn configured(&self) -> (res: Option<&String>)
        ensures
            match self {
                DashboardOrigin::Static(u) => res == Some(u),
                DashboardOrigin::FromRequest => res is None,
            },
    {
        match self {
            DashboardOrigin::Static(u) => Some(u),
            DashboardOrigin::FromRequest => None,
        }
    }
}

/// Neither an origin is configured nor does the request carry an `Origin` header.
#[derive(Debug, Clone, Copy, PartialEq, Eq, Structural)]
pub struct MissingOrigin;

/// The dashboard origin for a request: the configured one, or else the request's `Origin`.
pub fn dashboard_origin(configured: &DashboardOrigin, request_origin: Option<&str>) -> (res: Result<
    String,
    MissingOrigin,
>)
    ensures
        match configured {
            DashboardOrigin::Static(u) => res matches Ok(o) && o@ == u@,
            DashboardOrigin::FromRequest => match request_origin {
                Some(r) => res matches Ok(o) && o@ == r@,
                None => res == Err::<String, MissingOrigin>(MissingOrigin),
            },
        },
{
    match configured {
        DashboardOrigin::Static(u) => Ok(u.clone()),
        DashboardOrigin::FromRequest => match request_origin {
            Some(r) => Ok(String::from_str(r)),
            None => Err(MissingOrigin),
        },
    }
}

/// The relying party of WebAuthn: its identifier and its origin.
#[derive(Debug, Clone)]
pub struct WebauthnConfig {
    pub rp_id: String,
    pub rp_origin: String,
}

impl Default for WebauthnConfig {
    fn default() -> (res: Self)
        ensures
            res.rp_id@ == "scuffle.cloud"@,
            res.rp_origin@ == "https://dashboard.scuffle.cloud/"@,
    {
        WebauthnConfig {
            rp_id: String::from_str("scuffle.cloud"),
            rp_origin: String::from_str("https://dashboard.scuffle.cloud/"),
        }
    }
}

/// Where the telemetry endpoint listens.
#[derive(Debug, Clone, Copy)]
pub struct TelemetryConfig {
    pub bind_ip: IpAddress,
    pub bind_port: u16,
}

impl Default for TelemetryConfig {
    fn default() -> (res: Self)
        ensures
            res.bind_ip == IpAddress::V6(1),
            res.bind_port == 4317,
    {
        TelemetryConfig { bind_ip: IpAddress::V6(1), bind_port: 4317 }
    }
}

} // verus!
