//! The e-mails that the core service sends: the links they carry, how long those stay valid,
//! and the request that hands an e-mail to the e-mail service.
use vstd::prelude::*;

use chrono::Datelike;

use crate::config::Duration;
use crate::geoip::IpAddress;
use crate::headers::text_eq;
use crate::ip_text::{ip_string, ip_text};

verus! {

/// The URL that `url`'s `Url::join` gives for `input` against the URL that `Url::parse` reads
/// from `base`, as its serialization; `None` where either call fails.
pub uninterp spec fn url_joined(base: Seq<char>, input: Seq<char>) -> Option<Seq<char>>;

/// `url::Url::parse` of `base`, then `Url::join` with `input`: the serialization of the
/// joined URL, or `None` where either call returns an error. The result is named, not stated.
#[verifier::external_body]
pub(crate) fn join_url(base: &str, input: &str) -> (res: Option<String>)
    ensures
        url_joined(base@, input@) == match res {
            Some(s) => Some(s@),
            None => None,
        },
{
    let parsed = match url::Url::parse(base) {
        Ok(u) => u,
        Err(_) => return None,
    };
    match parsed.join(input) {
        Ok(u) => Some(u.to_string()),
        Err(_) => None,
    }
}

/// The current calendar year in UTC, from `chrono::Utc::now().year()`. It depends on the
/// clock, so nothing is stated of it.
#[verifier::external_body]
fn current_year() -> (res: i32) {
    chrono::Utc::now().year()
}

/// A rendered e-mail.
#[derive(Debug, Clone)]
pub struct Email {
    pub subject: String,
    pub text: String,
    pub html: String,
}

/// Where a request comes from, as far as it could be located.
#[derive(Debug, Clone)]
pub struct GeoInfo {
    pub city: Option<String>,
    pub country: Option<String>,
}

impl Default for GeoInfo {
    fn default() -> (res: Self)
        ensures
            res.city is None,
            res.country is None,
    {
        GeoInfo { city: None, country: None }
    }
}

impl GeoInfo {
    /// Neither the city nor the country is known.
    pub fn is_empty(&self) -> (res: bool)
        ensures
            res == (self.city is None && self.country is None),
    {
        self.city.is_none() && self.country.is_none()
    }
}

/// The English name among `names`, pairs of a language code and a name: the name of the first
/// pair whose code is `en`.
pub open spec fn english_name(names: Seq<(String, String)>) -> Option<Seq<char>>
    decreases names.len(),
{
    if names.len() == 0 {
        None
    } else if names[0].0@ == "en"@ {
        Some(names[0].1@)
    } else {
        english_name(names.drop_first())
    }
}

/// The English name among `names`.
fn find_english_name(names: &Vec<(String, String)>) -> (res: Option<String>)
    ensures
        match english_name(names@) {
            Some(n) => res matches Some(r) && r@ == n,
            None => res is None,
        },
{
    let mut k: usize = 0;
    assert(names@.skip(0) =~= names@);
    while k < names.len()
        invariant
            k <= names@.len(),
            english_name(names@) == english_name(names@.skip(k as int)),
        decreases names@.len() - k,
    {
        let ghost rest = names@.skip(k as int);
        assert(rest[0] == names@[k as int]);
        assert(rest.drop_first() =~= names@.skip(k + 1));
        if text_eq(names[k].0.as_str(), "en") {
            proof {
                reveal_strlit("en");
            }
            return Some(names[k].1.clone());
        }
        k = k + 1;
    }
    None
}

/// Where a request comes from, from the names that the GeoIP database gives its city and its
/// country: the English name of each, where the database has one.
pub fn geo_info_from_names(city_names: Option<&Vec<(String, String)>>, country_names: Option<
    &Vec<(String, String)>,
>) -> (res: GeoInfo)
    ensures
        match city_names {
            Some(n) => match english_name(n@) {
                Some(c) => res.city matches Some(r) && r@ == c,
                None => res.city is None,
            },
            None => res.city is None,
        },
        match country_names {
            Some(n) => match english_name(n@) {
                Some(c) => res.country matches Some(r) && r@ == c,
                None => res.country is None,
            },
            None => res.country is None,
        },
{
    let city = match city_names {
        Some(n) => find_english_name(n),
        None => None,
    };
    let country = match country_names {
        Some(n) => find_english_name(n),
        None => None,
    };
    GeoInfo { city, country }
}

/// What an e-mail with a confirmation link shows: the link, the minutes it stays valid and
/// the year of the copyright notice.
#[derive(Debug, Clone)]
pub struct LinkEmail {
    pub url: String,
    pub timeout_minutes: u32,
    pub copyright_year: u32,
}

/// The whole minutes of a link's validity, as the templates show them: the seconds are
/// truncated to 32 bits before the division.
pub open spec fn timeout_minutes(timeout: Duration) -> u32 {
    ((timeout.secs as u32) / 60) as u32
}

/// The e-mail that carries the link `path` of the dashboard at `dashboard_origin`, valid for
/// `timeout`, in the year `year`. `None` where the link cannot be joined to the origin.
pub fn link_email(dashboard_origin: &str, path: &str, timeout: Duration, year: i32) -> (res: Option<
    LinkEmail,
>)
    ensures
        url_joined(dashboard_origin@, path@) is Some <==> res is Some,
        res matches Some(e) ==> {
            &&& Some(e.url@) == url_joined(dashboard_origin@, path@)
            &&& e.timeout_minutes == timeout_minutes(timeout)
            &&& e.copyright_year == year as u32
        },
{
    let url = match join_url(dashboard_origin, path) {
        Some(u) => u,
        None => {
            return None;
        },
    };
    let secs: u32 = timeout.as_secs() as u32;
    Some(LinkEmail { url, timeout_minutes: secs / 60, copyright_year: year as u32 })
}

/// The e-mail that confirms a registration with the code `code`: it links to
/// `/register/confirm?code=<code>` on the dashboard.
pub fn register_with_email_email(dashboard_origin: &str, code: &str, timeout: Duration) -> (res:
    Option<LinkEmail>)
    ensures
        url_joined(dashboard_origin@, "/register/confirm?code="@ + code@) is Some <==> res is Some,
        res matches Some(e) ==> {
            &&& Some(e.url@) == url_joined(dashboard_origin@, "/register/confirm?code="@ + code@)
            &&& e.timeout_minutes == timeout_minutes(timeout)
        },
{
    let path = String::from_str("/register/confirm?code=").concat(code);
    link_email(dashboard_origin, path.as_str(), timeout, current_year())
}

/// The e-mail that confirms a new e-mail address with the code `code`: it links to
/// `/settings/emails/confirm?code=<code>` on the dashboard.
pub fn add_new_email_email(dashboard_origin: &str, code: &str, timeout: Duration) -> (res: Option<
    LinkEmail,
>)
    ensures
        url_joined(dashboard_origin@, "/settings/emails/confirm?code="@ + code@) is Some <==> res is Some,
        res matches Some(e) ==> {
            &&& Some(e.url@) == url_joined(dashboard_origin@, "/settings/emails/confirm?code="@ + code@)
            &&& e.timeout_minutes == timeout_minutes(timeout)
        },
{
    let path = String::from_str("/settings/emails/confirm?code=").concat(code);
    link_email(dashboard_origin, path.as_str(), timeout, current_year())
}

/// The e-mail that signs a user in with the code `code`: it links to
/// `/login/magic-link?code=<code>` on the dashboard.
pub fn magic_link_email(dashboard_origin: &str, code: &str, timeout: Duration) -> (res: Option<
    LinkEmail,
>)
    ensures
        url_joined(dashboard_origin@, "/login/magic-link?code="@ + code@) is Some <==> res is Some,
        res matches Some(e) ==> {
            &&& Some(e.url@) == url_joined(dashboard_origin@, "/login/magic-link?code="@ + code@)
            &&& e.timeout_minutes == timeout_minutes(timeout)
        },
{
    let path = String::from_str("/login/magic-link?code=").concat(code);
    link_email(dashboard_origin, path.as_str(), timeout, current_year())
}

/// What the e-mail about a sign-in from a new device shows.
#[derive(Debug, Clone)]
pub struct NewDeviceEmail {
    pub activity_url: String,
    pub ip_address: String,
    pub geo_info: GeoInfo,
    pub copyright_year: u32,
}

/// The e-mail about a sign-in from the address `ip` located at `geo_info`: it shows the
/// address as text and links to `/activity` on the dashboard. `None` where that link cannot be
/// joined to the origin.
pub fn new_device_email(dashboard_origin: &str, ip: IpAddress, geo_info: GeoInfo) -> (res: Option<
    NewDeviceEmail,
>)
    ensures
        url_joined(dashboard_origin@, "/activity"@) is Some <==> res is Some,
        res matches Some(e) ==> {
            &&& Some(e.activity_url@) == url_joined(dashboard_origin@, "/activity"@)
            &&& e.ip_address@ == ip_text(ip)
            &&& e.geo_info == geo_info
        },
{
    let activity_url = match join_url(dashboard_origin, "/activity") {
        Some(u) => u,
        None => {
            return None;
        },
    };
    let year = current_year();
    Some(NewDeviceEmail { activity_url, ip_address: ip_string(ip), geo_info, copyright_year: year as u32 })
}

/// An e-mail address with an optional display name.
#[derive(Debug, Clone)]
pub struct EmailAddress {
    pub name: Option<String>,
    pub address: String,
}

/// A request to the e-mail service to send one e-mail.
#[derive(Debug, Clone)]
pub struct SendEmailRequest {
    pub from: Option<EmailAddress>,
    pub to: Option<EmailAddress>,
    pub subject: String,
    pub text: String,
    pub html: String,
}

/// The request that sends `email` to `to_address` (named `to_name`) from the configured
/// sender `from_name` at `from_address`.
pub fn email_to_pb(
    from_name: &str,
    from_address: &str,
    to_address: String,
    to_name: Option<String>,
    email: Email,
) -> (res: SendEmailRequest)
    ensures
        res.from matches Some(f) && f.name matches Some(n) && n@ == from_name@ && f.address@
            == from_address@,
        res.to matches Some(t) && t.name == to_name && t.address == to_address,
        res.subject == email.subject,
        res.text == email.text,
        res.html == email.html,
{
    SendEmailRequest {
        from: Some(EmailAddress { name: Some(String::from_str(from_name)), address: String::from_str(from_address) }),
        to: Some(EmailAddress { name: to_name, address: to_address }),
        subject: email.subject,
        text: email.text,
        html: email.html,
    }
}

/// The page of the e-mail preview that shows one e-mail, as sent from the service's sender to
/// a test user.
#[derive(Debug, Clone)]
pub struct EmailIndexTemplate {
    pub name: String,
    pub from_name: String,
    pub from_address: String,
    pub to_name: String,
    pub to_address: String,
    pub subject: String,
    pub text: String,
}

impl EmailIndexTemplate {
    /// The preview page of `email` under the name `name`.
    pub fn from_email(name: String, email: Email) -> (res: Self)
        ensures
            res.name == name,
            res.from_name@ == "Scuffle"@,
            res.from_address@ == "no-reply@scuffle.cloud"@,
            res.to_name@ == "Test User"@,
            res.to_address@ == "test@example.com"@,
            res.subject == email.subject,
            res.text == email.text,
    {
        EmailIndexTemplate {
            name,
            from_name: String::from_str("Scuffle"),
            from_address: String::from_str("no-reply@scuffle.cloud"),
            to_name: String::from_str("Test User"),
            to_address: String::from_str("test@example.com"),
            subject: email.subject,
            text: email.text,
        }
    }
}

} // verus!
