use scufflecloud::config::Duration;
use scufflecloud::geoip::IpAddress;
use scufflecloud::emails::{
    add_new_email_email, email_to_pb, link_email, magic_link_email, new_device_email, register_with_email_email,
    Email, EmailIndexTemplate, GeoInfo,
};

const ORIGIN: &str = "https://dashboard.scuffle.cloud";

fn sample_email() -> Email {
    Email { subject: "Hi".to_string(), text: "Hello".to_string(), html: "<p>Hello</p>".to_string() }
}

#[test]
fn link_emails_carry_the_link_and_the_minutes() {
    let e = register_with_email_email(ORIGIN, "abc", Duration { secs: 15 * 60, nanos: 0 }).unwrap();
    assert_eq!(e.url, "https://dashboard.scuffle.cloud/register/confirm?code=abc");
    assert_eq!(e.timeout_minutes, 15);
    let e = add_new_email_email(ORIGIN, "x-y", Duration { secs: 3600, nanos: 0 }).unwrap();
    assert_eq!(e.url, "https://dashboard.scuffle.cloud/settings/emails/confirm?code=x-y");
    assert_eq!(e.timeout_minutes, 60);
    let e = magic_link_email("https://dash.example/app/", "c0de", Duration { secs: 119, nanos: 5 }).unwrap();
    assert_eq!(e.url, "https://dash.example/login/magic-link?code=c0de");
    assert_eq!(e.timeout_minutes, 1);
}

#[test]
fn link_email_truncates_seconds_to_32_bits_and_takes_the_year() {
    let e = link_email(ORIGIN, "/x", Duration { secs: (1u64 << 32) + 120, nanos: 0 }, 2031).unwrap();
    assert_eq!(e.timeout_minutes, 2);
    assert_eq!(e.copyright_year, 2031);
    assert_eq!(e.url, "https://dashboard.scuffle.cloud/x");
}

#[test]
fn links_need_an_origin_that_can_be_a_base() {
    assert!(link_email("mailto:someone@example.com", "/x", Duration { secs: 60, nanos: 0 }, 2025).is_none());
    assert!(register_with_email_email("not a url", "abc", Duration { secs: 60, nanos: 0 }).is_none());
}

#[test]
fn new_device_email_links_to_the_activity_page() {
    let geo = GeoInfo { city: Some("Scuffle City".to_string()), country: Some("Scuffland".to_string()) };
    let e = new_device_email(ORIGIN, IpAddress::V4(u32::from_be_bytes([198, 200, 12, 0])), geo).unwrap();
    assert_eq!(e.activity_url, "https://dashboard.scuffle.cloud/activity");
    assert_eq!(e.ip_address, "198.200.12.0");
    assert_eq!(e.geo_info.city.as_deref(), Some("Scuffle City"));
}

#[test]
fn geo_info_is_empty_without_city_and_country() {
    assert!(GeoInfo::default().is_empty());
    assert!(!GeoInfo { city: None, country: Some("X".to_string()) }.is_empty());
    assert!(!GeoInfo { city: Some("Y".to_string()), country: None }.is_empty());
}

#[test]
fn email_to_pb_addresses_the_email() {
    let r = email_to_pb("Scuffle", "no-reply@scuffle.cloud", "a@b.c".to_string(), Some("A".to_string()), sample_email());
    let from = r.from.unwrap();
    assert_eq!((from.name.as_deref(), from.address.as_str()), (Some("Scuffle"), "no-reply@scuffle.cloud"));
    let to = r.to.unwrap();
    assert_eq!((to.name.as_deref(), to.address.as_str()), (Some("A"), "a@b.c"));
    assert_eq!((r.subject.as_str(), r.text.as_str(), r.html.as_str()), ("Hi", "Hello", "<p>Hello</p>"));
}

#[test]
fn preview_pages_use_the_test_addresses() {
    let t = EmailIndexTemplate::from_email("magic_link".to_string(), sample_email());
    assert_eq!(t.name, "magic_link");
    assert_eq!(t.from_name, "Scuffle");
    assert_eq!(t.from_address, "no-reply@scuffle.cloud");
    assert_eq!(t.to_name, "Test User");
    assert_eq!(t.to_address, "test@example.com");
    assert_eq!((t.subject.as_str(), t.text.as_str()), ("Hi", "Hello"));
}
