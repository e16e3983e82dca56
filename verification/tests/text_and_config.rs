use scufflecloud::config::{
    days, hours, minutes, parse_server, Duration, GoogleOAuth2Config, MtlsConfig, RedisConfig,
    RedisConfigError, RedisServerLayout, TimeoutConfig,
};
use scufflecloud::numbers::parse_unsigned;
use scufflecloud::text::normalize_email;

#[test]
fn normalize_email_trims_and_lowercases() {
    assert_eq!(normalize_email("  Alice@Example.COM \n"), "alice@example.com");
    assert_eq!(normalize_email("bob@example.com"), "bob@example.com");
    assert_eq!(normalize_email("\u{a0}ÄBC@x.de"), "Äbc@x.de");
    assert_eq!(normalize_email("   "), "");
}

#[test]
fn normalize_email_twice_is_normalize_email_once() {
    for s in ["  MiXeD@Case.Org  ", "\tTAB@X.Y", "plain", "", " \u{2003}Ü@ß.de\u{3000} "] {
        let once = normalize_email(s);
        assert_eq!(normalize_email(&once), once);
    }
}

#[test]
fn durations_count_seconds() {
    assert_eq!(minutes(2), Duration { secs: 120, nanos: 0 });
    assert_eq!(hours(4), Duration { secs: 14_400, nanos: 0 });
    assert_eq!(days(30), Duration { secs: 2_592_000, nanos: 0 });
    assert_eq!(Duration::from_secs(7).as_secs(), 7);
}

#[test]
fn timeout_defaults() {
    let t = TimeoutConfig::default();
    assert_eq!(t.max_request_diff.secs, 120);
    assert_eq!(t.user_session.secs, 30 * 24 * 3600);
    assert_eq!(t.mfa.secs, 300);
    assert_eq!(t.user_session_token.secs, 4 * 3600);
    assert_eq!(t.new_user_email_request.secs, 3600);
    assert_eq!(t.user_session_request.secs, 300);
    assert_eq!(t.magic_link_request.secs, 900);
}

#[test]
fn other_config_defaults() {
    let g = GoogleOAuth2Config::default();
    assert!(g.client_id.is_empty() && g.client_secret.is_empty());
    let m = MtlsConfig::default();
    assert!(m.root_cert_path.is_empty() && m.cert_path.is_empty() && m.key_path.is_empty());
    let r = RedisConfig::default();
    assert_eq!(r.servers, vec!["localhost:6379".to_string()]);
    assert_eq!((r.username, r.password, r.database, r.pool_size), (None, None, 0, 10));
}

#[test]
fn parse_unsigned_reads_decimal_numbers() {
    assert_eq!(parse_unsigned("42", 100), Some(42));
    assert_eq!(parse_unsigned("+7", 100), Some(7));
    assert_eq!(parse_unsigned("101", 100), None);
    assert_eq!(parse_unsigned("", 100), None);
    assert_eq!(parse_unsigned("+", 100), None);
    assert_eq!(parse_unsigned("-1", 100), None);
    assert_eq!(parse_unsigned("18446744073709551615", u64::MAX), Some(u64::MAX));
    assert_eq!(parse_unsigned("18446744073709551616", u64::MAX), None);
}

#[test]
fn redis_server_addresses() {
    let s = parse_server("cache:6380").unwrap();
    assert_eq!((s.host.as_str(), s.port), ("cache", 6380));
    let s = parse_server("cache").unwrap();
    assert_eq!((s.host.as_str(), s.port), ("cache", 6379));
    let s = parse_server("cache:1:2").unwrap();
    assert_eq!((s.host.as_str(), s.port), ("cache", 1));
    assert_eq!(parse_server("cache:70000").unwrap_err(), RedisConfigError::InvalidPort);
    assert_eq!(parse_server("cache:").unwrap_err(), RedisConfigError::InvalidPort);
}

#[test]
fn redis_layouts() {
    let single = RedisConfig::default();
    match single.server_layout().unwrap() {
        RedisServerLayout::Centralized(s) => assert_eq!((s.host.as_str(), s.port), ("localhost", 6379)),
        RedisServerLayout::Clustered(_) => panic!("one server is no cluster"),
    }
    let mut cluster = RedisConfig::default();
    cluster.servers = vec!["a:1".to_string(), "b".to_string()];
    match cluster.server_layout().unwrap() {
        RedisServerLayout::Clustered(v) => {
            assert_eq!(v.len(), 2);
            assert_eq!((v[0].host.as_str(), v[0].port), ("a", 1));
            assert_eq!((v[1].host.as_str(), v[1].port), ("b", 6379));
        }
        RedisServerLayout::Centralized(_) => panic!("two servers are a cluster"),
    }
    cluster.servers = vec!["a:x".to_string(), "b".to_string()];
    assert!(cluster.server_layout().is_err());
}

#[test]
fn telemetry_listens_on_the_ipv6_loopback() {
    let t = scufflecloud::config::TelemetryConfig::default();
    assert_eq!(t.bind_ip, scufflecloud::geoip::IpAddress::V6(1));
    assert_eq!(t.bind_port, 4317);
    assert_eq!(scufflecloud::ip_text::ip_string(t.bind_ip), "::1");
}
