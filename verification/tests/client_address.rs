use scufflecloud::auth::StatusCode;
use scufflecloud::geoip::{client_address, in_any_network, middleware, ClientAddress, IpAddress, IpNet, ReverseProxyConfig};

fn v4(a: u8, b: u8, c: u8, d: u8) -> IpAddress {
    IpAddress::V4(u32::from_be_bytes([a, b, c, d]))
}

fn config() -> ReverseProxyConfig {
    ReverseProxyConfig {
        internal_networks: vec![IpNet::V4 { addr: u32::from_be_bytes([10, 0, 0, 0]), prefix: 8 }],
        ip_header: "x-forwarded-for".to_string(),
        trusted_proxies: vec![
            IpNet::V4 { addr: u32::from_be_bytes([192, 168, 1, 0]), prefix: 24 },
            IpNet::V6 { addr: 0x2001_0db8u128 << 96, prefix: 32 },
        ],
    }
}

#[test]
fn networks_contain_their_prefix() {
    let net = IpNet::V4 { addr: u32::from_be_bytes([192, 168, 1, 0]), prefix: 24 };
    assert!(net.contains(v4(192, 168, 1, 77)));
    assert!(!net.contains(v4(192, 168, 2, 1)));
    assert!(IpNet::V4 { addr: 0, prefix: 0 }.contains(v4(8, 8, 8, 8)));
    assert!(!IpNet::V4 { addr: 0, prefix: 0 }.contains(IpAddress::V6(1)));
    assert!(IpNet::V4 { addr: u32::from_be_bytes([1, 2, 3, 4]), prefix: 32 }.contains(v4(1, 2, 3, 4)));
    assert!(in_any_network(&config().trusted_proxies, IpAddress::V6((0x2001_0db8u128 << 96) | 5)));
}

#[test]
fn mapped_ipv6_addresses_become_ipv4() {
    let mapped = IpAddress::V6(0xffff_0000_0000u128 | 0x0102_0304);
    assert_eq!(mapped.to_canonical(), v4(1, 2, 3, 4));
    assert_eq!(IpAddress::V6(1).to_canonical(), IpAddress::V6(1));
}

#[test]
fn without_a_proxy_configuration_the_connecting_address_is_recorded() {
    assert_eq!(client_address(v4(1, 2, 3, 4), None, None), ClientAddress::Recorded(v4(1, 2, 3, 4)));
    let mapped = IpAddress::V6(0xffff_0000_0000u128 | 0x0102_0304);
    assert_eq!(client_address(mapped, None, Some(Some(vec![v4(9, 9, 9, 9)]))), ClientAddress::Recorded(v4(1, 2, 3, 4)));
}

#[test]
fn internal_connections_skip_the_header() {
    let c = config();
    assert_eq!(client_address(v4(10, 1, 2, 3), Some(&c), None), ClientAddress::Recorded(v4(10, 1, 2, 3)));
    assert_eq!(
        client_address(v4(10, 1, 2, 3), Some(&c), Some(Some(vec![v4(5, 5, 5, 5)]))),
        ClientAddress::Recorded(v4(10, 1, 2, 3))
    );
}

#[test]
fn untrusted_connections_are_bad_requests() {
    let c = config();
    assert_eq!(
        client_address(v4(8, 8, 8, 8), Some(&c), Some(Some(vec![v4(1, 1, 1, 1)]))),
        ClientAddress::Rejected(StatusCode::BadRequest)
    );
}

#[test]
fn a_missing_or_unreadable_header_is_a_bad_request() {
    let c = config();
    assert_eq!(client_address(v4(192, 168, 1, 5), Some(&c), None), ClientAddress::Rejected(StatusCode::BadRequest));
    assert_eq!(
        client_address(v4(192, 168, 1, 5), Some(&c), Some(None)),
        ClientAddress::Rejected(StatusCode::BadRequest)
    );
}

#[test]
fn the_client_is_the_last_untrusted_address() {
    let c = config();
    let chain = vec![v4(5, 5, 5, 5), v4(6, 6, 6, 6), v4(192, 168, 1, 9)];
    assert_eq!(
        client_address(v4(192, 168, 1, 5), Some(&c), Some(Some(chain))),
        ClientAddress::Recorded(v4(6, 6, 6, 6))
    );
    let mapped = IpAddress::V6(0xffff_0000_0000u128 | 0x0707_0707);
    assert_eq!(
        client_address(v4(192, 168, 1, 5), Some(&c), Some(Some(vec![mapped]))),
        ClientAddress::Recorded(v4(7, 7, 7, 7))
    );
}

#[test]
fn a_chain_of_trusted_proxies_records_the_connecting_address() {
    let c = config();
    assert_eq!(
        client_address(v4(192, 168, 1, 5), Some(&c), Some(Some(vec![v4(192, 168, 1, 1)]))),
        ClientAddress::Recorded(v4(192, 168, 1, 5))
    );
    assert_eq!(
        client_address(v4(192, 168, 1, 5), Some(&c), Some(Some(vec![]))),
        ClientAddress::Recorded(v4(192, 168, 1, 5))
    );
}

#[test]
fn the_layer_wraps_a_service() {
    let layer = middleware::<()>();
    let service = layer.clone().layer(5u32);
    let _copy = service.clone();
}
