use scufflecloud::geoip::IpAddress;
use scufflecloud::ids::{UserId, UserSessionRequestId, UserSessionTokenId};
use scufflecloud::ip_text::{ip_string, ipv4_string, ipv6_string};
use scufflecloud::models::{DeviceAlgorithm, UserSession, UserSessionRequest};
use scufflecloud::pb::{host_network_string, user_session_request_to_pb, user_session_to_pb, Timestamp};

#[test]
fn ipv4_addresses_are_dotted_decimal() {
    assert_eq!(ipv4_string(0), "0.0.0.0");
    assert_eq!(ipv4_string(u32::MAX), "255.255.255.255");
    assert_eq!(ipv4_string(u32::from_be_bytes([198, 200, 12, 0])), "198.200.12.0");
    assert_eq!(ipv4_string(0x0a00_0001), "10.0.0.1");
    assert_eq!(ipv4_string(0x6400_00ff), "100.0.0.255");
}

#[test]
fn ipv6_addresses_compress_the_first_longest_zero_run() {
    assert_eq!(ipv6_string(0), "::");
    assert_eq!(ipv6_string(1), "::1");
    assert_eq!(ipv6_string(0x2001_0db8u128 << 96), "2001:db8::");
    assert_eq!(ipv6_string(0xffff_0000_0000u128 | 0x0102_0304), "::ffff:1.2.3.4");
    let cases: [(u128, &str); 10] = [
        (0x2001_0db8_0000_0000_0001_0000_0000_0001, "2001:db8::1:0:0:1"),
        (0x2001_0db8_0000_0001_0000_0000_0000_0001, "2001:db8:0:1::1"),
        (0x0001_0000_0001_0000_0001_0000_0001_0000, "1:0:1:0:1:0:1:0"),
        (0x0000_0000_0001_0000_0000_0001_0000_0000, "::1:0:0:1:0:0"),
        (0xfe80_0000_0000_0000_0202_b3ff_fe1e_8329, "fe80::202:b3ff:fe1e:8329"),
        (0x0000_0000_0000_0000_0000_0000_0102_0304, "::102:304"),
        (0x0000_0000_0000_0000_0000_fffe_0102_0304, "::fffe:102:304"),
        (u128::MAX, "ffff:ffff:ffff:ffff:ffff:ffff:ffff:ffff"),
        (0x1234_0000_5678_0000_0000_9abc_0000_def0, "1234:0:5678::9abc:0:def0"),
        (0x0000_abcd_0000_0000_0000_0000_abcd_0000, "0:abcd::abcd:0"),
    ];
    for (a, text) in cases {
        assert_eq!(ipv6_string(a), text);
        assert_eq!(ip_string(IpAddress::V6(a)), text);
    }
}

#[test]
fn host_networks_carry_the_full_prefix() {
    assert_eq!(host_network_string(IpAddress::V4(0x0102_0304)), "1.2.3.4/32");
    assert_eq!(host_network_string(IpAddress::V6(1)), "::1/128");
}

#[test]
fn sessions_and_requests_as_the_api_presents_them() {
    let s = UserSession {
        user_id: UserId(1),
        device_fingerprint: vec![1, 2],
        device_algorithm: DeviceAlgorithm::RsaOaepSha256,
        device_pk_data: vec![3],
        last_used_at: 1_000_000_001,
        last_ip: IpAddress::V4(0x0a00_0001),
        token_id: Some(UserSessionTokenId(2)),
        token: Some(vec![4]),
        token_expires_at: None,
        expires_at: 3_000_000_000,
        mfa_pending: true,
    };
    let p = user_session_to_pb(s);
    assert_eq!(p.user_id, "u_00000000000000000000000001");
    assert_eq!(p.last_ip, "10.0.0.1/32");
    assert_eq!(p.token_id.as_deref(), Some("st_00000000000000000000000002"));
    assert_eq!(p.last_used_at, Some(Timestamp { seconds: 1, nanos: 1 }));
    assert_eq!(p.expires_at, Some(Timestamp { seconds: 3, nanos: 0 }));
    assert!(p.mfa_pending);
    let r = user_session_request_to_pb(UserSessionRequest {
        id: UserSessionRequestId(3),
        device_name: "laptop".to_string(),
        device_ip: IpAddress::V6(0x2001_0db8u128 << 96 | 1),
        code: "123".to_string(),
        approved_by: None,
        expires_at: 0,
    });
    assert_eq!(r.id, "sr_00000000000000000000000003");
    assert_eq!(r.ip, "2001:db8::1/128");
    assert_eq!(r.approved_by, None);
}
