//! Request signing: the headers a client sends to prove that it holds a session token,
//! and the decisions that turn them into an authenticated, expired or rejected request.
//!
//! A signed request carries five headers: the token id, a millisecond timestamp, a 32-byte
//! nonce, the authentication method (`HMAC-SHA256;` followed by the comma-separated names of
//! the signed headers) and the base-64 HMAC of the signed headers' values, in the listed order,
//! keyed with the session token.
use vstd::prelude::*;

use crate::config::Duration;
use crate::geoip::IpAddress;
use crate::models::UserSession;
use crate::encoding::{base64_standard_decoded, decode_base64_standard, hmac_sha256, hmac_sha256_verify};
use crate::headers::{
    get_header, header_name_spec, header_text, header_value_text, headers_view, lookup,
    parse_header_name, text_eq, Header,
};
use crate::ids::{parse_id, parsed_id, IdKind, UserSessionTokenId};
use crate::numbers::{parse_unsigned, parse_unsigned_spec};
use crate::text::{find_char, index_of_from, lemma_index_of_from, substring, trim, trim_bounds};

verus! {

/// The HTTP status of a rejected request.
#[derive(Debug, Clone, Copy, PartialEq, Eq, Structural)]
pub enum StatusCode {
    BadRequest,
    Unauthorized,
    InternalServerError,
}

/// The name of the header that carries the session token id.
pub fn token_id_header() -> (res: &'static str)
    ensures
        res@ == "scuf-token-id"@,
{
    "scuf-token-id"
}

/// The name of the header that carries the request's timestamp in milliseconds.
pub fn timestamp_header() -> (res: &'static str)
    ensures
        res@ == "scuf-timestamp"@,
{
    "scuf-timestamp"
}

/// The name of the header that carries the request's nonce.
pub fn nonce_header() -> (res: &'static str)
    ensures
        res@ == "scuf-nonce"@,
{
    "scuf-nonce"
}

/// The name of the header that carries the authentication method.
pub fn authentication_method_header() -> (res: &'static str)
    ensures
        res@ == "scuf-auth-method"@,
{
    "scuf-auth-method"
}

/// The name of the header that carries the request's HMAC.
pub fn authentication_hmac_header() -> (res: &'static str)
    ensures
        res@ == "scuf-auth-hmac"@,
{
    "scuf-auth-hmac"
}

/// The five headers of the signing scheme, which cross-origin requests may carry.
pub fn auth_headers() -> (res: Vec<&'static str>)
    ensures
        res@.len() == 5,
        res@[0]@ == "scuf-token-id"@,
        res@[1]@ == "scuf-timestamp"@,
        res@[2]@ == "scuf-nonce"@,
        res@[3]@ == "scuf-auth-method"@,
        res@[4]@ == "scuf-auth-hmac"@,
{
    let mut v: Vec<&'static str> = Vec::new();
    v.push(token_id_header());
    v.push(timestamp_header());
    v.push(nonce_header());
    v.push(authentication_method_header());
    v.push(authentication_hmac_header());
    v
}

/// The algorithm of an authentication method.
#[derive(Debug, Clone, Copy, PartialEq, Eq, Structural)]
pub enum AuthenticationAlgorithm {
    HmacSha256,
}

/// Why an authentication method header cannot be read.
#[derive(Debug, Clone, Copy, PartialEq, Eq, Structural)]
pub enum AuthenticationMethodParseError {
    UnknownAlgorithm,
    InvalidHeaderFormat,
}

/// Reads the name of an authentication algorithm.
pub fn parse_algorithm(s: &str) -> (res: Result<AuthenticationAlgorithm, AuthenticationMethodParseError>)
    ensures
        s@ == "HMAC-SHA256"@ ==> res == Ok::<AuthenticationAlgorithm, AuthenticationMethodParseError>(
            AuthenticationAlgorithm::HmacSha256,
        ),
        s@ != "HMAC-SHA256"@ ==> res == Err::<AuthenticationAlgorithm, AuthenticationMethodParseError>(
            AuthenticationMethodParseError::UnknownAlgorithm,
        ),
{
    if text_eq(s, "HMAC-SHA256") {
        Ok(AuthenticationAlgorithm::HmacSha256)
    } else {
        Err(AuthenticationMethodParseError::UnknownAlgorithm)
    }
}

/// An authentication method: the algorithm and the names of the signed headers, in order.
#[derive(Debug)]
pub struct AuthenticationMethod {
    pub algorithm: AuthenticationAlgorithm,
    pub headers: Vec<String>,
}

/// The pieces of `s` between commas, as `str::split(',')` yields them.
pub open spec fn split_commas(s: Seq<char>) -> Seq<Seq<char>>
    decreases s.len(),
{
    let j = index_of_from(s, ',', 0);
    if j >= s.len() {
        seq![s]
    } else {
        proof {
            lemma_index_of_from(s, ',', 0);
        }
        seq![s.take(j)] + split_commas(s.skip(j + 1))
    }
}

/// The header names that the pieces spell once trimmed, if every piece spells one.
pub open spec fn header_names_spec(parts: Seq<Seq<char>>) -> Option<Seq<Seq<char>>>
    decreases parts.len(),
{
    if parts.len() == 0 {
        Some(Seq::empty())
    } else {
        match header_name_spec(trim(parts[0])) {
            None => None,
            Some(h) => match header_names_spec(parts.drop_first()) {
                None => None,
                Some(r) => Some(seq![h] + r),
            },
        }
    }
}

/// `r` after the names `a`, if there is an `r`.
pub open spec fn prepend_names(a: Seq<Seq<char>>, r: Option<Seq<Seq<char>>>) -> Option<Seq<Seq<char>>> {
    match r {
        None => None,
        Some(x) => Some(a + x),
    }
}

/// The signed header names that an authentication method header states, or its fault:
/// the algorithm is the text before the first `;`, the names the comma-separated pieces after it.
pub open spec fn method_spec(s: Seq<char>) -> Result<Seq<Seq<char>>, AuthenticationMethodParseError> {
    let i = index_of_from(s, ';', 0);
    if i >= s.len() {
        Err(AuthenticationMethodParseError::InvalidHeaderFormat)
    } else if s.take(i) != "HMAC-SHA256"@ {
        Err(AuthenticationMethodParseError::UnknownAlgorithm)
    } else {
        match header_names_spec(split_commas(s.skip(i + 1))) {
            None => Err(AuthenticationMethodParseError::InvalidHeaderFormat),
            Some(h) => Ok(h),
        }
    }
}

proof fn lemma_header_names_step(parts: Seq<Seq<char>>, a: Seq<Seq<char>>, h: Seq<char>)
    requires
        parts.len() > 0,
        header_name_spec(trim(parts[0])) == Some(h),
    ensures
        prepend_names(a, header_names_spec(parts)) == prepend_names(
            a.push(h),
            header_names_spec(parts.drop_first()),
        ),
{
    match header_names_spec(parts.drop_first()) {
        None => {},
        Some(r) => {
            assert(a + (seq![h] + r) =~= a.push(h) + r);
        },
    }
}

/// Reads the comma-separated signed header names of `s`.
fn parse_header_list(s: &str) -> (res: Option<Vec<String>>)
    ensures
        match header_names_spec(split_commas(s@)) {
            Some(h) => res matches Some(v) && v@.len() == h.len() && forall|k: int|
                0 <= k < h.len() ==> (#[trigger] v@[k])@ == h[k],
            None => res is None,
        },
{
    let n = s.unicode_len();
    let mut out: Vec<String> = Vec::new();
    let ghost mut names: Seq<Seq<char>> = Seq::empty();
    let mut start: usize = 0;
    assert(s@.skip(0) =~= s@);
    loop
        invariant
            n == s@.len(),
            start <= n,
            out@.len() == names.len(),
            forall|k: int| 0 <= k < names.len() ==> (#[trigger] out@[k])@ == names[k],
            header_names_spec(split_commas(s@)) == prepend_names(
                names,
                header_names_spec(split_commas(s@.skip(start as int))),
            ),
        decreases n - start,
    {
        let ghost t = s@.skip(start as int);
        let j = find_char(s, ',', start);
        proof {
            lemma_index_of_from(s@, ',', start as int);
            lemma_index_of_from(t, ',', 0);
            assert forall|k: int| 0 <= k < j - start implies t[k] != ',' by {
                assert(t[k] == s@[k + start]);
            }
            if j < n {
                assert(t[j - start] == ',');
            }
            assert(index_of_from(t, ',', 0) == j - start) by {
                lemma_first_index(t, ',', (j - start) as int);
            }
        }
        let piece = substring(s, start, j);
        assert(piece@ =~= t.take(j - start));
        let (a, b) = trim_bounds(piece.as_str());
        let trimmed = substring(piece.as_str(), a, b);
        match parse_header_name(trimmed.as_str()) {
            None => {
                assert(split_commas(t)[0] == piece@);
                return None;
            },
            Some(h) => {
                proof {
                    assert(split_commas(t)[0] == piece@);
                    lemma_header_names_step(split_commas(t), names, h@);
                    if j < n {
                        assert(split_commas(t).drop_first() =~= split_commas(
                            t.skip(j - start + 1),
                        ));
                        assert(t.skip(j - start + 1) =~= s@.skip(j + 1));
                    } else {
                        assert(split_commas(t).drop_first() =~= Seq::<Seq<char>>::empty());
                    }
                    names = names.push(h@);
                }
                out.push(h);
                if j >= n {
                    assert(header_names_spec(Seq::<Seq<char>>::empty()) == Some(
                        Seq::<Seq<char>>::empty(),
                    ));
                    assert(names + Seq::<Seq<char>>::empty() =~= names);
                    return Some(out);
                }
                start = j + 1;
            },
        }
    }
}

proof fn lemma_first_index(t: Seq<char>, c: char, j: int)
    requires
        0 <= j <= t.len(),
        forall|k: int| 0 <= k < j ==> t[k] != c,
        j < t.len() ==> t[j] == c,
    ensures
        index_of_from(t, c, 0) == j,
{
    lemma_index_of_from_shift(t, c, 0, j);
}

proof fn lemma_index_of_from_shift(t: Seq<char>, c: char, i: int, j: int)
    requires
        0 <= i <= j <= t.len(),
        forall|k: int| i <= k < j ==> t[k] != c,
        j < t.len() ==> t[j] == c,
    ensures
        index_of_from(t, c, i) == j,
    decreases j - i,
{
    if i < j {
        lemma_index_of_from_shift(t, c, i + 1, j);
    }
}

/// Reads an authentication method header, as `method_spec` states it.
pub fn parse_authentication_method(s: &str) -> (res: Result<AuthenticationMethod, AuthenticationMethodParseError>)
    ensures
        match method_spec(s@) {
            Ok(h) => res matches Ok(m) && m.algorithm == AuthenticationAlgorithm::HmacSha256
                && m.headers@.len() == h.len() && forall|k: int|
                0 <= k < h.len() ==> (#[trigger] m.headers@[k])@ == h[k],
            Err(e) => res matches Err(f) && f == e,
        },
{
    let n = s.unicode_len();
    let i = find_char(s, ';', 0);
    proof {
        lemma_index_of_from(s@, ';', 0);
    }
    if i >= n {
        return Err(AuthenticationMethodParseError::InvalidHeaderFormat);
    }
    let algorithm_text = substring(s, 0, i);
    assert(algorithm_text@ =~= s@.take(i as int));
    let algorithm = parse_algorithm(algorithm_text.as_str())?;
    let rest = substring(s, i + 1, n);
    assert(rest@ =~= s@.skip(i + 1));
    match parse_header_list(rest.as_str()) {
        Some(headers) => Ok(AuthenticationMethod { algorithm, headers }),
        None => Err(AuthenticationMethodParseError::InvalidHeaderFormat),
    }
}

/// How a header of the signing scheme reads: absent, unreadable, or a value.
pub enum HeaderField<T> {
    Missing,
    Invalid,
    Present(T),
}

/// How the header `name` of `hs` reads with the parser `parse`.
pub open spec fn field<T>(
    hs: Seq<(Seq<char>, Seq<u8>)>,
    name: Seq<char>,
    parse: spec_fn(Seq<char>) -> Option<T>,
) -> HeaderField<T> {
    match lookup(hs, name) {
        None => HeaderField::Missing,
        Some(v) => match header_text(v) {
            None => HeaderField::Invalid,
            Some(t) => match parse(t) {
                None => HeaderField::Invalid,
                Some(x) => HeaderField::Present(x),
            },
        },
    }
}

/// The nonce a nonce header spells: 32 bytes in standard base 64.
pub open spec fn nonce_spec(t: Seq<char>) -> Option<Seq<u8>> {
    match base64_standard_decoded(t) {
        Some(b) => if b.len() == 32 {
            Some(b)
        } else {
            None
        },
        None => None,
    }
}

/// Why a nonce header cannot be read.
#[derive(Debug, Clone, Copy, PartialEq, Eq, Structural)]
pub enum NonceParseError {
    /// The text is not standard base 64.
    Base64,
    /// The decoded nonce has this many bytes rather than 32.
    InvalidLength(usize),
}

/// Reads a nonce: 32 bytes in standard base 64.
pub fn parse_nonce(s: &str) -> (res: Result<Vec<u8>, NonceParseError>)
    ensures
        match base64_standard_decoded(s@) {
            None => res == Err::<Vec<u8>, NonceParseError>(NonceParseError::Base64),
            Some(b) => if b.len() == 32 {
                res matches Ok(v) && v@ == b
            } else {
                res == Err::<Vec<u8>, NonceParseError>(NonceParseError::InvalidLength(b.len() as usize))
            },
        },
{
    match decode_base64_standard(s) {
        None => Err(NonceParseError::Base64),
        Some(b) => if b.len() != 32 {
            Err(NonceParseError::InvalidLength(b.len()))
        } else {
            Ok(b)
        },
    }
}

/// Reads the HMAC of a request: bytes in standard base 64.
pub fn parse_authentication_hmac(s: &str) -> (res: Option<Vec<u8>>)
    ensures
        res is Some <==> base64_standard_decoded(s@) is Some,
        res matches Some(v) ==> base64_standard_decoded(s@) == Some(v@),
{
    decode_base64_standard(s)
}

/// The signed header names an authentication method header spells.
pub open spec fn method_names(t: Seq<char>) -> Option<Seq<Seq<char>>> {
    match method_spec(t) {
        Ok(h) => Some(h),
        Err(_) => None,
    }
}

/// The times in milliseconds since the Unix epoch that `chrono::DateTime::from_timestamp_millis`
/// accepts: from `DateTime::<Utc>::MIN_UTC`, midnight of `NaiveDate::MIN` in the year -262143,
/// to the last millisecond of `DateTime::<Utc>::MAX_UTC`, on `NaiveDate::MAX` in 262142.
pub open spec fn chrono_millis_in_range(ms: i64) -> bool {
    -8_334_601_228_800_000 <= ms <= 8_210_266_876_799_999
}

/// `chrono::DateTime::from_timestamp_millis(ms)` returns a time (rather than `None`, for a
/// time outside the range that `chrono` represents). It splits `ms` into days and the time of
/// day with Euclidean division, and `NaiveDate::from_num_days_from_ce_opt` accepts exactly the
/// days from `NaiveDate::MIN` to `NaiveDate::MAX`.
#[verifier::external_body]
fn millis_in_range(ms: i64) -> (res: bool)
    ensures
        res == chrono_millis_in_range(ms),
{
    chrono::DateTime::from_timestamp_millis(ms).is_some()
}

/// The signing headers of a request, read.
pub struct AuthHeaders {
    pub token_id: UserSessionTokenId,
    /// Milliseconds since the Unix epoch.
    pub timestamp_ms: i64,
    pub nonce: Vec<u8>,
    pub method: AuthenticationMethod,
    pub hmac: Vec<u8>,
}

/// What the signing headers of a request state.
pub struct AuthHeadersView {
    pub token_id: u128,
    pub timestamp_ms: i64,
    pub nonce: Seq<u8>,
    pub signed_headers: Seq<Seq<char>>,
    pub hmac: Seq<u8>,
}

impl AuthHeaders {
    pub open spec fn view(&self) -> AuthHeadersView {
        AuthHeadersView {
            token_id: self.token_id.0,
            timestamp_ms: self.timestamp_ms,
            nonce: self.nonce@,
            signed_headers: self.method.headers@.map_values(|h: String| h@),
            hmac: self.hmac@,
        }
    }
}

/// What the headers `hs` of a request state about signing: nothing (`Ok(None)`) where a
/// header is missing, or the timestamp lies outside the range of times; a bad request where
/// a present header cannot be read. The headers are read in the order token id, timestamp,
/// nonce, method, HMAC, and the first missing or unreadable one decides.
pub open spec fn auth_headers_spec(hs: Seq<(Seq<char>, Seq<u8>)>) -> Result<Option<AuthHeadersView>, StatusCode> {
    match field(hs, "scuf-token-id"@, |t: Seq<char>| parsed_id(IdKind::UserSessionToken, t)) {
        HeaderField::Missing => Ok(None),
        HeaderField::Invalid => Err(StatusCode::BadRequest),
        HeaderField::Present(token_id) => match field(hs, "scuf-timestamp"@, |t: Seq<char>| parse_unsigned_spec(t, u64::MAX as nat)) {
            HeaderField::Missing => Ok(None),
            HeaderField::Invalid => Err(StatusCode::BadRequest),
            HeaderField::Present(ts) => if !chrono_millis_in_range((ts as u64) as i64) {
                Ok(None)
            } else {
                match field(hs, "scuf-nonce"@, |t: Seq<char>| nonce_spec(t)) {
                    HeaderField::Missing => Ok(None),
                    HeaderField::Invalid => Err(StatusCode::BadRequest),
                    HeaderField::Present(nonce) => match field(hs, "scuf-auth-method"@, |t: Seq<char>| method_names(t)) {
                        HeaderField::Missing => Ok(None),
                        HeaderField::Invalid => Err(StatusCode::BadRequest),
                        HeaderField::Present(names) => match field(hs, "scuf-auth-hmac"@, |t: Seq<char>| base64_standard_decoded(t)) {
                            HeaderField::Missing => Ok(None),
                            HeaderField::Invalid => Err(StatusCode::BadRequest),
                            HeaderField::Present(hmac) => Ok(Some(AuthHeadersView {
                                token_id,
                                timestamp_ms: (ts as u64) as i64,
                                nonce,
                                signed_headers: names,
                                hmac,
                            })),
                        },
                    },
                }
            },
        },
    }
}

/// The text of header `name`: `Err` for a header that is present but not visible ASCII.
fn header_field_text(headers: &Vec<Header>, name: &str) -> (res: Result<Option<String>, StatusCode>)
    ensures
        match lookup(headers_view(headers@), name@) {
            None => res matches Ok(None),
            Some(v) => match header_text(v) {
                None => res == Err::<Option<String>, StatusCode>(StatusCode::BadRequest),
                Some(t) => res matches Ok(Some(s)) && s@ == t,
            },
        },
{
    match get_header(headers, name) {
        None => Ok(None),
        Some(v) => match header_value_text(v) {
            None => Err(StatusCode::BadRequest),
            Some(t) => Ok(Some(t)),
        },
    }
}

/// Reads the signing headers of a request, as `auth_headers_spec` states it.
pub fn read_auth_headers(headers: &Vec<Header>) -> (res: Result<Option<AuthHeaders>, StatusCode>)
    ensures
        match auth_headers_spec(headers_view(headers@)) {
            Ok(None) => res matches Ok(None),
            Err(e) => res == Err::<Option<AuthHeaders>, StatusCode>(e),
            Ok(Some(v)) => res matches Ok(Some(a)) && a.view() == v,
        },
{
    let ghost hv = headers_view(headers@);
    let token_text = match header_field_text(headers, token_id_header())? {
        None => return Ok(None),
        Some(t) => t,
    };
    let token_id = match parse_id(IdKind::UserSessionToken, token_text.as_str()) {
        Ok(v) => UserSessionTokenId(v),
        Err(_) => return Err(StatusCode::BadRequest),
    };
    let ts_text = match header_field_text(headers, timestamp_header())? {
        None => return Ok(None),
        Some(t) => t,
    };
    let ts = match parse_unsigned(ts_text.as_str(), u64::MAX) {
        Some(v) => v,
        None => return Err(StatusCode::BadRequest),
    };
    let timestamp_ms = ts as i64;
    if !millis_in_range(timestamp_ms) {
        return Ok(None);
    }
    let nonce_text = match header_field_text(headers, nonce_header())? {
        None => return Ok(None),
        Some(t) => t,
    };
    let nonce = match parse_nonce(nonce_text.as_str()) {
        Ok(b) => b,
        Err(_) => return Err(StatusCode::BadRequest),
    };
    let method_text = match header_field_text(headers, authentication_method_header())? {
        None => return Ok(None),
        Some(t) => t,
    };
    let method = match parse_authentication_method(method_text.as_str()) {
        Ok(m) => m,
        Err(_) => return Err(StatusCode::BadRequest),
    };
    let hmac_text = match header_field_text(headers, authentication_hmac_header())? {
        None => return Ok(None),
        Some(t) => t,
    };
    let hmac = match parse_authentication_hmac(hmac_text.as_str()) {
        Some(b) => b,
        None => return Err(StatusCode::BadRequest),
    };
    let res = AuthHeaders { token_id, timestamp_ms, nonce, method, hmac };
    assert(res.view().signed_headers =~= method_names(method_text@)->0);
    Ok(Some(res))
}

/// The largest span that `chrono::TimeDelta` holds, in nanoseconds: `i64::MAX` milliseconds.
pub open spec fn max_time_delta_nanos() -> int {
    9_223_372_036_854_775_807int * 1_000_000int
}

/// A request stamped `timestamp_ms` arrives within `max_diff` of the server clock `now_ns`
/// (nanoseconds since the Unix epoch), in either direction.
pub open spec fn within_window(timestamp_ms: i64, now_ns: i128, max_diff: Duration) -> bool {
    let diff = now_ns - timestamp_ms * 1_000_000;
    (if diff < 0 { -diff } else { diff }) <= max_diff.total_nanos()
}

/// Whether a request stamped `timestamp_ms` arrives within `max_diff` of `now_ns`.
pub fn request_within_window(timestamp_ms: i64, now_ns: i128, max_diff: Duration) -> (res: bool)
    requires
        max_diff.wf(),
        max_diff.total_nanos() <= max_time_delta_nanos(),
        -1_000_000_000_000_000_000_000_000_000_000_000_000i128 < now_ns < 1_000_000_000_000_000_000_000_000_000_000_000_000i128,
    ensures
        res == within_window(timestamp_ms, now_ns, max_diff),
{
    assert(-10_000_000_000_000_000_000_000_000i128 < (timestamp_ms as i128) * 1_000_000
        < 10_000_000_000_000_000_000_000_000i128) by (nonlinear_arith)
        requires
            i64::MIN <= timestamp_ms <= i64::MAX,
    ;
    let ts_ns = (timestamp_ms as i128) * 1_000_000;
    let diff = now_ns - ts_ns;
    let abs = if diff < 0 {
        -diff
    } else {
        diff
    };
    let max_ns = (max_diff.secs as i128) * 1_000_000_000 + (max_diff.nanos as i128);
    abs <= max_ns
}

/// The signed header names include the token id, timestamp and nonce headers.
pub open spec fn signs_required_headers(names: Seq<Seq<char>>) -> bool {
    &&& names.contains("scuf-token-id"@)
    &&& names.contains("scuf-timestamp"@)
    &&& names.contains("scuf-nonce"@)
}

fn contains_name(names: &Vec<String>, name: &str) -> (res: bool)
    ensures
        res == names@.map_values(|h: String| h@).contains(name@),
{
    let ghost view = names@.map_values(|h: String| h@);
    let mut k: usize = 0;
    while k < names.len()
        invariant
            k <= names@.len(),
            view == names@.map_values(|h: String| h@),
            forall|m: int| 0 <= m < k ==> view[m] != name@,
        decreases names@.len() - k,
    {
        if text_eq(names[k].as_str(), name) {
            assert(view[k as int] == name@);
            return true;
        }
        k = k + 1;
    }
    false
}

/// Where the first step of authenticating a request leads.
pub enum AuthStart {
    /// The request carries no complete signature: it is served without a session.
    Anonymous,
    /// The request is refused.
    Rejected(StatusCode),
    /// The session of this token id is to be looked up (among the sessions that hold a token
    /// and have not expired) and the signature checked against it.
    LookUp(AuthHeaders),
}

/// The first step of authenticating a request from its headers, at server time `now_ns`:
/// its signing headers are read, its timestamp must lie within `max_request_diff` of the
/// server clock, and its signature must cover the token id, timestamp and nonce headers.
pub fn begin_authentication(headers: &Vec<Header>, now_ns: i128, max_request_diff: Duration) -> (res: AuthStart)
    requires
        max_request_diff.wf(),
        max_request_diff.total_nanos() <= max_time_delta_nanos(),
        -1_000_000_000_000_000_000_000_000_000_000_000_000i128 < now_ns < 1_000_000_000_000_000_000_000_000_000_000_000_000i128,
    ensures
        match auth_headers_spec(headers_view(headers@)) {
            Err(e) => res matches AuthStart::Rejected(f) && f == e,
            Ok(None) => res is Anonymous,
            Ok(Some(v)) => if !within_window(v.timestamp_ms, now_ns, max_request_diff) {
                res matches AuthStart::Rejected(f) && f == StatusCode::Unauthorized
            } else if !signs_required_headers(v.signed_headers) {
                res matches AuthStart::Rejected(f) && f == StatusCode::BadRequest
            } else {
                res matches AuthStart::LookUp(a) && a.view() == v
            },
        },
        match auth_headers_spec(headers_view(headers@)) {
            Ok(Some(v)) => within_window(v.timestamp_ms, now_ns, max_request_diff) && !(
            v.signed_headers.contains("scuf-token-id"@) && v.signed_headers.contains(
                "scuf-timestamp"@,
            ) && v.signed_headers.contains("scuf-nonce"@)) ==> (res matches AuthStart::Rejected(f)
                && f == StatusCode::BadRequest),
            _ => true,
        },
        res matches AuthStart::LookUp(a) ==> {
            &&& a.view().signed_headers.contains("scuf-token-id"@)
            &&& a.view().signed_headers.contains("scuf-timestamp"@)
            &&& a.view().signed_headers.contains("scuf-nonce"@)
        },
{
    let auth = match read_auth_headers(headers) {
        Err(e) => return AuthStart::Rejected(e),
        Ok(None) => return AuthStart::Anonymous,
        Ok(Some(a)) => a,
    };
    if !request_within_window(auth.timestamp_ms, now_ns, max_request_diff) {
        return AuthStart::Rejected(StatusCode::Unauthorized);
    }
    if !contains_name(&auth.method.headers, token_id_header()) || !contains_name(
        &auth.method.headers,
        timestamp_header(),
    ) || !contains_name(&auth.method.headers, nonce_header()) {
        return AuthStart::Rejected(StatusCode::BadRequest);
    }
    AuthStart::LookUp(auth)
}

/// A request goes on to the session lookup only where its signature covers each of the token
/// id, timestamp and nonce headers: leaving any of the three unsigned is a bad request.
pub proof fn lemma_unsigned_required_header_refused(names: Seq<Seq<char>>)
    ensures
        !names.contains("scuf-token-id"@) ==> !signs_required_headers(names),
        !names.contains("scuf-timestamp"@) ==> !signs_required_headers(names),
        !names.contains("scuf-nonce"@) ==> !signs_required_headers(names),
        names.contains("scuf-token-id"@) && names.contains("scuf-timestamp"@) && names.contains(
            "scuf-nonce"@,
        ) ==> signs_required_headers(names),
{
}

/// The signed message: the values of the named headers, concatenated in order, if all are present.
pub open spec fn signed_message(hs: Seq<(Seq<char>, Seq<u8>)>, names: Seq<Seq<char>>) -> Option<Seq<u8>>
    decreases names.len(),
{
    if names.len() == 0 {
        Some(Seq::empty())
    } else {
        match lookup(hs, names[0]) {
            None => None,
            Some(v) => match signed_message(hs, names.drop_first()) {
                None => None,
                Some(r) => Some(v + r),
            },
        }
    }
}

/// The key under which a nonce is remembered, so that a request cannot be replayed.
pub open spec fn nonce_key_spec(nonce: Seq<u8>) -> Seq<u8> {
    "nonces:"@.map_values(|c: char| c as u8) + nonce
}

/// The outcome of checking a signature: the key of the nonce to claim where it holds.
pub open spec fn signature_outcome(
    hs: Seq<(Seq<char>, Seq<u8>)>,
    auth: AuthHeadersView,
    token: Seq<u8>,
) -> Result<Seq<u8>, StatusCode> {
    match signed_message(hs, auth.signed_headers) {
        None => Err(StatusCode::BadRequest),
        Some(m) => if hmac_sha256(token, m) == auth.hmac {
            Ok(nonce_key_spec(auth.nonce))
        } else {
            Err(StatusCode::Unauthorized)
        },
    }
}

/// A request whose HMAC is the tag, under the session token, of the values of the headers it
/// names, all present, passes the signature check, and its nonce is then claimed; a request with
/// any other HMAC does not.
pub proof fn lemma_signature_accepted_iff_tag_matches(
    hs: Seq<(Seq<char>, Seq<u8>)>,
    auth: AuthHeadersView,
    token: Seq<u8>,
    message: Seq<u8>,
)
    requires
        signed_message(hs, auth.signed_headers) == Some(message),
    ensures
        auth.hmac == hmac_sha256(token, message) ==> signature_outcome(hs, auth, token) == Ok::<
            Seq<u8>,
            StatusCode,
        >(nonce_key_spec(auth.nonce)),
        auth.hmac != hmac_sha256(token, message) ==> signature_outcome(hs, auth, token) == Err::<
            Seq<u8>,
            StatusCode,
        >(StatusCode::Unauthorized),
{
}

/// The second step: with the session found for the token id (its token), the request's
/// signature is checked. No session means an unauthorized request; a signed header that
/// the request lacks, a bad request; a wrong HMAC, an unauthorized request. Where the
/// signature holds, the result is the key under which the nonce is to be claimed.
pub fn check_signature(headers: &Vec<Header>, auth: &AuthHeaders, session_token: Option<&Vec<u8>>) -> (res: Result<Vec<u8>, StatusCode>)
    ensures
        match session_token {
            None => res == Err::<Vec<u8>, StatusCode>(StatusCode::Unauthorized),
            Some(t) => match signature_outcome(headers_view(headers@), auth.view(), t@) {
                Ok(k) => res matches Ok(key) && key@ == k,
                Err(e) => res == Err::<Vec<u8>, StatusCode>(e),
            },
        },
{
    let token = match session_token {
        None => return Err(StatusCode::Unauthorized),
        Some(t) => t,
    };
    let ghost hv = headers_view(headers@);
    let ghost names = auth.view().signed_headers;
    let mut message: Vec<u8> = Vec::new();
    let mut k: usize = 0;
    assert(names.skip(0) =~= names);
    while k < auth.method.headers.len()
        invariant
            k <= names.len(),
            names.len() == auth.method.headers@.len(),
            names == auth.view().signed_headers,
            hv == headers_view(headers@),
            session_token == Some(token),
            signed_message(hv, names) == match signed_message(hv, names.skip(k as int)) {
                None => None::<Seq<u8>>,
                Some(r) => Some(message@ + r),
            },
        decreases names.len() - k,
    {
        let ghost rest = names.skip(k as int);
        assert(rest[0] == auth.method.headers@[k as int]@);
        assert(rest.drop_first() =~= names.skip(k + 1));
        match get_header(headers, auth.method.headers[k].as_str()) {
            None => {
                assert(signed_message(hv, rest) is None);
                assert(signed_message(hv, names) is None);
                return Err(StatusCode::BadRequest);
            },
            Some(v) => {
                proof {
                    match signed_message(hv, names.skip(k + 1)) {
                        None => {},
                        Some(r) => {
                            assert(message@ + (v@ + r) =~= (message@ + v@) + r);
                        },
                    }
                }
                let mut i: usize = 0;
                let ghost before = message@;
                while i < v.len()
                    invariant
                        i <= v@.len(),
                        message@ == before + v@.take(i as int),
                    decreases v@.len() - i,
                {
                    message.push(v[i]);
                    i = i + 1;
                    assert(message@ =~= before + v@.take(i as int));
                }
                assert(v@.take(v@.len() as int) =~= v@);
            },
        }
        k = k + 1;
    }
    assert(names.skip(names.len() as int) =~= Seq::<Seq<char>>::empty());
    assert(message@ + Seq::<u8>::empty() =~= message@);
    if !hmac_sha256_verify(token.as_slice(), message.as_slice(), auth.hmac.as_slice()) {
        return Err(StatusCode::Unauthorized);
    }
    let mut key: Vec<u8> = Vec::new();
    key.push(110u8);
    key.push(111u8);
    key.push(110u8);
    key.push(99u8);
    key.push(101u8);
    key.push(115u8);
    key.push(58u8);
    let mut i: usize = 0;
    let ghost prefix = key@;
    proof {
        reveal_strlit("nonces:");
        assert(prefix =~= "nonces:"@.map_values(|c: char| c as u8));
    }
    while i < auth.nonce.len()
        invariant
            i <= auth.nonce@.len(),
            key@ == prefix + auth.nonce@.take(i as int),
        decreases auth.nonce@.len() - i,
    {
        key.push(auth.nonce[i]);
        i = i + 1;
        assert(key@ =~= prefix + auth.nonce@.take(i as int));
    }
    assert(auth.nonce@.take(auth.nonce@.len() as int) =~= auth.nonce@);
    Ok(key)
}

/// How long a claimed nonce is remembered, in milliseconds: as long as a request may be late
/// or early, so that it cannot be replayed within that window.
pub fn nonce_expiration_ms(max_request_diff: Duration) -> (res: i64)
    requires
        max_request_diff.wf(),
        max_request_diff.total_nanos() <= max_time_delta_nanos(),
    ensures
        res == max_request_diff.total_nanos() / 1_000_000,
{
    let ms: u128 = (max_request_diff.secs as u128) * 1000 + (max_request_diff.nanos as u128) / 1_000_000;
    assert(ms == max_request_diff.total_nanos() / 1_000_000) by (nonlinear_arith)
        requires
            ms == max_request_diff.secs * 1000 + max_request_diff.nanos / 1_000_000,
            max_request_diff.total_nanos() == max_request_diff.secs * 1_000_000_000
                + max_request_diff.nanos,
            max_request_diff.nanos < 1_000_000_000,
    ;
    ms as i64
}

/// A claimed nonce key is still remembered at `now` in the claims `claims` (each a key and the
/// time it expires at): some claim of it has not expired.
pub open spec fn nonce_live(claims: Seq<(Seq<u8>, i64)>, key: Seq<u8>, now: i64) -> bool {
    exists|k: int| 0 <= k < claims.len() && (#[trigger] claims[k]).0 == key && claims[k].1 > now
}

/// The nonces claimed so far, each remembered until it expires: what the key-value store keeps
/// of them, as a set-if-absent with an expiry does.
pub struct NonceStore {
    claims: Vec<(Vec<u8>, i64)>,
}

impl View for NonceStore {
    type V = Seq<(Seq<u8>, i64)>;

    closed spec fn view(&self) -> Seq<(Seq<u8>, i64)> {
        Seq::new(self.claims@.len(), |i: int| (self.claims@[i].0@, self.claims@[i].1))
    }
}

/// `a@ == b@` for byte slices.
fn same_bytes(a: &[u8], b: &[u8]) -> (res: bool)
    ensures
        res == (a@ == b@),
{
    if a.len() != b.len() {
        return false;
    }
    let mut k: usize = 0;
    while k < a.len()
        invariant
            a@.len() == b@.len(),
            k <= a@.len(),
            forall|m: int| 0 <= m < k ==> a@[m] == b@[m],
        decreases a@.len() - k,
    {
        if a[k] != b[k] {
            return false;
        }
        k = k + 1;
    }
    assert(a@ =~= b@);
    true
}

impl NonceStore {
    /// A store that remembers no nonce.
    pub fn new() -> (res: Self)
        ensures
            res@ == Seq::<(Seq<u8>, i64)>::empty(),
    {
        let res = NonceStore { claims: Vec::new() };
        assert(res@ =~= Seq::<(Seq<u8>, i64)>::empty());
        res
    }

    /// Claims the nonce key `key` at `now`, to be remembered until `expires_at`. Answers whether
    /// it was claimed already and is still remembered; only a fresh claim is recorded.
    pub fn claim(&mut self, key: Vec<u8>, now: i64, expires_at: i64) -> (already_claimed: bool)
        ensures
            already_claimed == nonce_live(old(self)@, key@, now),
            already_claimed ==> final(self)@ == old(self)@,
            !already_claimed ==> final(self)@ == old(self)@.push((key@, expires_at)),
    {
        let mut k: usize = 0;
        while k < self.claims.len()
            invariant
                k <= self@.len(),
                self.claims@.len() == self@.len(),
                forall|m: int| 0 <= m < k ==> !((#[trigger] self@[m]).0 == key@ && self@[m].1 > now),
            decreases self@.len() - k,
        {
            assert(self@[k as int] == (self.claims@[k as int].0@, self.claims@[k as int].1));
            if same_bytes(self.claims[k].0.as_slice(), key.as_slice()) && self.claims[k].1 > now {
                return true;
            }
            k = k + 1;
        }
        let ghost before = self@;
        let ghost kv = key@;
        self.claims.push((key, expires_at));
        assert(self.claims@[before.len() as int].0@ == kv);
        assert(self@ =~= before.push((kv, expires_at)));
        false
    }
}

/// A nonce cannot be replayed within its window: once a claim of `key` at `t0`, remembered for
/// `window`, was fresh, any later claim of the same key before `t0 + window` finds it claimed,
/// whatever other claims came in between. `before` is the store before the fresh claim and
/// `later` the store at the later claim, which keeps every claim the store had after it.
pub proof fn lemma_nonce_replay_refused(
    before: Seq<(Seq<u8>, i64)>,
    later: Seq<(Seq<u8>, i64)>,
    key: Seq<u8>,
    t0: i64,
    window: i64,
    t: i64,
)
    requires
        t0 + window <= i64::MAX,
        !nonce_live(before, key, t0),
        later.len() > before.len(),
        later.subrange(0, before.len() + 1int) == before.push((key, (t0 + window) as i64)),
        t < t0 + window,
    ensures
        nonce_live(later, key, t),
{
    let k = before.len() as int;
    assert(later.subrange(0, before.len() + 1int)[k] == later[k]);
    assert(later[k] == (key, (t0 + window) as i64));
}

/// The session that a signed request names is active at `now_ns`: it holds the token with
/// that id and has not expired.
pub open spec fn session_active_for(session: UserSession, token_id: UserSessionTokenId, now_ns: i128) -> bool {
    &&& session.token_id == Some(token_id)
    &&& session.token is Some
    &&& session.expires_at > now_ns
}

/// Whether `session` is the active session of the token `token_id` at `now_ns`.
pub fn is_active_for_token(session: &UserSession, token_id: UserSessionTokenId, now_ns: i128) -> (res: bool)
    ensures
        res == session_active_for(*session, token_id, now_ns),
{
    let same = match session.token_id {
        Some(t) => t.0 == token_id.0,
        None => false,
    };
    same && session.token.is_some() && session.expires_at > now_ns
}

/// Records a use of `session` from `ip` at `now_ns`; nothing else changes.
pub fn touch_session(session: &mut UserSession, ip: IpAddress, now_ns: i128)
    ensures
        final(session).last_ip == ip,
        final(session).last_used_at == now_ns,
        final(session).user_id == old(session).user_id,
        final(session).device_fingerprint == old(session).device_fingerprint,
        final(session).device_algorithm == old(session).device_algorithm,
        final(session).device_pk_data == old(session).device_pk_data,
        final(session).token_id == old(session).token_id,
        final(session).token == old(session).token,
        final(session).token_expires_at == old(session).token_expires_at,
        final(session).expires_at == old(session).expires_at,
        final(session).mfa_pending == old(session).mfa_pending,
{
    session.last_ip = ip;
    session.last_used_at = now_ns;
}

/// How an authenticated request is served.
#[derive(Debug, Clone, Copy, PartialEq, Eq, Structural)]
pub enum SessionState {
    /// The session's token is valid: the request is served with the session.
    Active,
    /// The session's token has expired: the request is served with the session marked expired.
    Expired,
}

/// The last step, once the nonce was claimed: a nonce that was already claimed marks a
/// replayed request, which is refused; otherwise the session is active, unless its token
/// expired at or before `now_ns`.
pub fn finish_authentication(nonce_already_claimed: bool, token_expires_at_ns: Option<i128>, now_ns: i128) -> (res: Result<SessionState, StatusCode>)
    ensures
        nonce_already_claimed ==> res == Err::<SessionState, StatusCode>(StatusCode::Unauthorized),
        !nonce_already_claimed ==> res == Ok::<SessionState, StatusCode>(
            if token_expires_at_ns matches Some(t) && t <= now_ns {
                SessionState::Expired
            } else {
                SessionState::Active
            },
        ),
{
    if nonce_already_claimed {
        return Err(StatusCode::Unauthorized);
    }
    match token_expires_at_ns {
        Some(t) => if t <= now_ns {
            Ok(SessionState::Expired)
        } else {
            Ok(SessionState::Active)
        },
        None => Ok(SessionState::Active),
    }
}

} // verus!
