//! Which address a request comes from: behind trusted reverse proxies the client's address
//! is read from a header that the proxies fill, elsewhere it is the connecting address.
use vstd::prelude::*;

use std::marker::PhantomData;

use crate::auth::StatusCode;

verus! {

/// An IP address.
#[derive(Debug, Clone, Copy, PartialEq, Eq, Structural)]
pub enum IpAddress {
    V4(u32),
    V6(u128),
}

impl IpAddress {
    /// The address in canonical form: an IPv4-mapped IPv6 address (`::ffff:a.b.c.d`) becomes
    /// the IPv4 address it maps, as `IpAddr::to_canonical` gives it.
    pub open spec fn canonical(self) -> IpAddress {
        match self {
            IpAddress::V4(a) => IpAddress::V4(a),
            IpAddress::V6(a) => if a >> 32u128 == 0xffffu128 {
                IpAddress::V4((a % 0x1_0000_0000) as u32)
            } else {
                IpAddress::V6(a)
            },
        }
    }

    /// The address in canonical form.
    pub fn to_canonical(self) -> (res: IpAddress)
        ensures
            res == self.canonical(),
    {
        match self {
            IpAddress::V4(a) => IpAddress::V4(a),
            IpAddress::V6(a) => if a >> 32u128 == 0xffffu128 {
                IpAddress::V4((a % 0x1_0000_0000) as u32)
            } else {
                IpAddress::V6(a)
            },
        }
    }
}

/// A network: an address and the length of its prefix in bits.
#[derive(Debug, Clone, Copy, PartialEq, Eq, Structural)]
pub enum IpNet {
    V4 { addr: u32, prefix: u8 },
    V6 { addr: u128, prefix: u8 },
}

impl IpNet {
    /// The prefix fits the address: at most 32 bits for IPv4 and 128 for IPv6.
    pub open spec fn wf(self) -> bool {
        match self {
            IpNet::V4 { prefix, .. } => prefix <= 32,
            IpNet::V6 { prefix, .. } => prefix <= 128,
        }
    }

    /// `ip` lies in the network: it is of the same family and agrees with the network's
    /// address in the leading `prefix` bits, as `ipnetwork`'s `IpNetwork::contains` tests.
    pub open spec fn contains_spec(self, ip: IpAddress) -> bool {
        match (self, ip) {
            (IpNet::V4 { addr, prefix }, IpAddress::V4(a)) => prefix == 0 || (a >> ((32 - prefix)
                as u32)) == (addr >> ((32 - prefix) as u32)),
            (IpNet::V6 { addr, prefix }, IpAddress::V6(a)) => prefix == 0 || (a >> ((128 - prefix)
                as u128)) == (addr >> ((128 - prefix) as u128)),
            _ => false,
        }
    }

    /// Whether `ip` lies in the network.
    pub fn contains(&self, ip: IpAddress) -> (res: bool)
        requires
            self.wf(),
        ensures
            res == self.contains_spec(ip),
    {
        match (self, ip) {
            (IpNet::V4 { addr, prefix }, IpAddress::V4(a)) => *prefix == 0 || (a >> ((32 - *prefix)
                as u32)) == (*addr >> ((32 - *prefix) as u32)),
            (IpNet::V6 { addr, prefix }, IpAddress::V6(a)) => *prefix == 0 || (a >> ((128
                - *prefix) as u128)) == (*addr >> ((128 - *prefix) as u128)),
            _ => false,
        }
    }
}

/// `ip` lies in one of `nets`.
pub open spec fn in_any(nets: Seq<IpNet>, ip: IpAddress) -> bool {
    exists|k: int| 0 <= k < nets.len() && (#[trigger] nets[k]).contains_spec(ip)
}

/// Whether `ip` lies in one of `nets`.
pub fn in_any_network(nets: &Vec<IpNet>, ip: IpAddress) -> (res: bool)
    requires
        forall|k: int| 0 <= k < nets@.len() ==> (#[trigger] nets@[k]).wf(),
    ensures
        res == in_any(nets@, ip),
{
    let mut k: usize = 0;
    while k < nets.len()
        invariant
            k <= nets@.len(),
            forall|m: int| 0 <= m < nets@.len() ==> (#[trigger] nets@[m]).wf(),
            forall|m: int| 0 <= m < k ==> !(#[trigger] nets@[m]).contains_spec(ip),
        decreases nets@.len() - k,
    {
        if nets[k].contains(ip) {
            return true;
        }
        k = k + 1;
    }
    false
}

/// Where requests come through reverse proxies.
pub struct ReverseProxyConfig {
    /// Networks whose connections bypass the proxies: their address is kept as it is.
    pub internal_networks: Vec<IpNet>,
    /// The request header that holds the chain of addresses the proxies saw.
    pub ip_header: String,
    /// The networks of the trusted proxies, the only other sources of connections.
    pub trusted_proxies: Vec<IpNet>,
}

impl Default for ReverseProxyConfig {
    fn default() -> (res: Self)
        ensures
            res.internal_networks@.len() == 0,
            res.ip_header@ == "x-forwarded-for"@,
            res.trusted_proxies@.len() == 0,
    {
        ReverseProxyConfig {
            internal_networks: Vec::new(),
            ip_header: String::from_str("x-forwarded-for"),
            trusted_proxies: Vec::new(),
        }
    }
}

impl ReverseProxyConfig {
    /// Every network has a prefix that fits its address.
    pub open spec fn wf(&self) -> bool {
        &&& forall|k: int| 0 <= k < self.internal_networks@.len() ==> (#[trigger] self.internal_networks@[k]).wf()
        &&& forall|k: int| 0 <= k < self.trusted_proxies@.len() ==> (#[trigger] self.trusted_proxies@[k]).wf()
    }
}

/// The last address of `ips` that is no trusted proxy.
pub open spec fn last_untrusted(ips: Seq<IpAddress>, trusted: Seq<IpNet>) -> Option<IpAddress>
    decreases ips.len(),
{
    if ips.len() == 0 {
        None
    } else if !in_any(trusted, ips.last().canonical()) {
        Some(ips.last().canonical())
    } else {
        last_untrusted(ips.drop_last(), trusted)
    }
}

/// What is known of a request's client address.
#[derive(Debug, Clone, Copy, PartialEq, Eq, Structural)]
pub enum ClientAddress {
    /// The request comes from this address.
    Recorded(IpAddress),
    /// The request is refused.
    Rejected(StatusCode),
}

/// The client address of a request from `connecting`, as `client_address` finds it.
pub open spec fn client_address_spec(
    connecting: IpAddress,
    config: Option<(Seq<IpNet>, Seq<IpNet>)>,
    header_ips: Option<Option<Seq<IpAddress>>>,
) -> ClientAddress {
    let ip = connecting.canonical();
    match config {
        None => ClientAddress::Recorded(ip),
        Some((internal, trusted)) => if in_any(internal, ip) {
            ClientAddress::Recorded(ip)
        } else if !in_any(trusted, ip) {
            ClientAddress::Rejected(StatusCode::BadRequest)
        } else {
            match header_ips {
                None => ClientAddress::Rejected(StatusCode::BadRequest),
                Some(None) => ClientAddress::Rejected(StatusCode::BadRequest),
                Some(Some(ips)) => match last_untrusted(ips, trusted) {
                    Some(a) => ClientAddress::Recorded(a),
                    None => ClientAddress::Recorded(ip),
                },
            }
        },
    }
}

/// Canonical form is a fixed point: an address in canonical form stays as it is.
pub proof fn lemma_canonical_idempotent(ip: IpAddress)
    ensures
        ip.canonical().canonical() == ip.canonical(),
{
    if let IpAddress::V6(a) = ip {
        if a >> 32u128 == 0xffffu128 {
        }
    }
}

/// A connection from an IPv4-mapped IPv6 address is treated as one from the IPv4 address it
/// maps.
pub proof fn lemma_client_address_canonical(
    connecting: IpAddress,
    config: Option<(Seq<IpNet>, Seq<IpNet>)>,
    header_ips: Option<Option<Seq<IpAddress>>>,
)
    ensures
        client_address_spec(connecting.canonical(), config, header_ips) == client_address_spec(
            connecting,
            config,
            header_ips,
        ),
{
    lemma_canonical_idempotent(connecting);
}

proof fn lemma_last_untrusted_is_untrusted(ips: Seq<IpAddress>, trusted: Seq<IpNet>)
    ensures
        last_untrusted(ips, trusted) matches Some(a) ==> !in_any(trusted, a),
    decreases ips.len(),
{
    if ips.len() > 0 && in_any(trusted, ips.last().canonical()) {
        lemma_last_untrusted_is_untrusted(ips.drop_last(), trusted);
    }
}

/// A connection from an internal network is served directly: whatever its IP header holds, its
/// own address is the client's.
pub proof fn lemma_internal_connections_served_directly(
    connecting: IpAddress,
    internal: Seq<IpNet>,
    trusted: Seq<IpNet>,
    header_ips: Option<Option<Seq<IpAddress>>>,
)
    requires
        in_any(internal, connecting.canonical()),
    ensures
        client_address_spec(connecting, Some((internal, trusted)), header_ips)
            == ClientAddress::Recorded(connecting.canonical()),
{
}

/// A recorded client address is either the connecting address, when every address of the
/// header is a trusted proxy, or an address of the header that is no trusted proxy: a client
/// cannot pass itself off as one of the proxies.
pub proof fn lemma_recorded_client_is_no_proxy(
    connecting: IpAddress,
    internal: Seq<IpNet>,
    trusted: Seq<IpNet>,
    header_ips: Option<Option<Seq<IpAddress>>>,
)
    ensures
        client_address_spec(connecting, Some((internal, trusted)), header_ips) matches ClientAddress::Recorded(a)
            ==> a == connecting.canonical() || !in_any(trusted, a),
{
    if let Some(Some(ips)) = header_ips {
        lemma_last_untrusted_is_untrusted(ips, trusted);
    }
}

/// The client address of a request that arrives from `connecting`. Without a reverse proxy
/// configuration, or from an internal network, the connection is served directly and its own
/// address is the client's: the IP header is not read. A connection from
/// anywhere else must come from a trusted proxy and carry the IP header, which must read as
/// a list of addresses (`header_ips`: `None` where the header is missing, `Some(None)` where it
/// does not read); the client is the last address of the list that is no trusted proxy, or
/// the connecting address where every one is.
pub fn client_address(
    connecting: IpAddress,
    config: Option<&ReverseProxyConfig>,
    header_ips: Option<Option<Vec<IpAddress>>>,
) -> (res: ClientAddress)
    requires
        config matches Some(c) ==> c.wf(),
    ensures
        res == client_address_spec(
            connecting,
            match config {
                None => None,
                Some(c) => Some((c.internal_networks@, c.trusted_proxies@)),
            },
            match header_ips {
                None => None,
                Some(None) => Some(None),
                Some(Some(v)) => Some(Some(v@)),
            },
        ),
{
    let ip = connecting.to_canonical();
    let c = match config {
        None => return ClientAddress::Recorded(ip),
        Some(c) => c,
    };
    if in_any_network(&c.internal_networks, ip) {
        return ClientAddress::Recorded(ip);
    }
    if !in_any_network(&c.trusted_proxies, ip) {
        return ClientAddress::Rejected(StatusCode::BadRequest);
    }
    let ips = match header_ips {
        None => return ClientAddress::Rejected(StatusCode::BadRequest),
        Some(None) => return ClientAddress::Rejected(StatusCode::BadRequest),
        Some(Some(v)) => v,
    };
    let mut k: usize = ips.len();
    assert(ips@.take(ips@.len() as int) =~= ips@);
    while k > 0
        invariant
            k <= ips@.len(),
            c.wf(),
            ip == connecting.canonical(),
            config == Some(c),
            header_ips == Some(Some(ips)),
            !in_any(c.internal_networks@, ip),
            in_any(c.trusted_proxies@, ip),
            last_untrusted(ips@, c.trusted_proxies@) == last_untrusted(ips@.take(k as int), c.trusted_proxies@),
        decreases k,
    {
        let candidate = ips[k - 1].to_canonical();
        assert(ips@.take(k as int).last() == ips@[k - 1]);
        if !in_any_network(&c.trusted_proxies, candidate) {
            assert(last_untrusted(ips@.take(k as int), c.trusted_proxies@) == Some(candidate));
            return ClientAddress::Recorded(candidate);
        }
        assert(ips@.take(k as int).drop_last() =~= ips@.take(k - 1));
        k = k - 1;
    }
    ClientAddress::Recorded(ip)
}

/// The layer that records the client address of each request.
pub struct GeoIpLayer<G> {
    _marker: PhantomData<G>,
}

/// The service that records the client address of each request before it passes the
/// request to `inner`.
pub struct GeoIpService<G, S> {
    inner: S,
    _marker: PhantomData<G>,
}

impl<G, S> GeoIpService<G, S> {
    /// The service that each request is passed on to.
    pub closed spec fn inner_service(&self) -> S {
        self.inner
    }
}

/// The layer that records client addresses.
pub fn middleware<G>() -> (res: GeoIpLayer<G>) {
    GeoIpLayer { _marker: PhantomData }
}

impl<G> GeoIpLayer<G> {
    /// Wraps `inner` in the service of this layer.
    pub fn layer<S>(&self, inner: S) -> (res: GeoIpService<G, S>)
        ensures
            res.inner_service() == inner,
    {
        GeoIpService { inner, _marker: PhantomData }
    }
}

impl<G> Clone for GeoIpLayer<G> {
    fn clone(&self) -> (res: Self) {
        GeoIpLayer { _marker: PhantomData }
    }
}

impl<G, S: Clone> Clone for GeoIpService<G, S> {
    fn clone(&self) -> (res: Self) {
        GeoIpService { inner: self.inner.clone(), _marker: PhantomData }
    }
}

} // verus!
