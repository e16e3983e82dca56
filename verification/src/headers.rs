//! HTTP header names and values as the request-signing scheme reads them.
use vstd::prelude::*;

use crate::chars::{ascii_lower, is_ascii_alnum};
use crate::text::{ascii_lowercase, string_from_chars};

verus! {

/// A header of a request: its name (lower case, as HTTP header maps keep names) and its value.
pub type Header = (String, Vec<u8>);

/// The headers of a request by their views, in order.
pub open spec fn headers_view(hs: Seq<Header>) -> Seq<(Seq<char>, Seq<u8>)> {
    hs.map_values(|h: Header| (h.0@, h.1@))
}

/// The value of the first header called `name`, as a header map's `get` returns it.
pub open spec fn lookup(hs: Seq<(Seq<char>, Seq<u8>)>, name: Seq<char>) -> Option<Seq<u8>>
    decreases hs.len(),
{
    if hs.len() == 0 {
        None
    } else if hs[0].0 == name {
        Some(hs[0].1)
    } else {
        lookup(hs.drop_first(), name)
    }
}

/// `a@ == b@`.
pub fn text_eq(a: &str, b: &str) -> (res: bool)
    ensures
        res == (a@ == b@),
{
    let n = a.unicode_len();
    if n != b.unicode_len() {
        return false;
    }
    let mut k: usize = 0;
    while k < n
        invariant
            n == a@.len(),
            n == b@.len(),
            k <= n,
            forall|m: int| 0 <= m < k ==> a@[m] == b@[m],
        decreases n - k,
    {
        if a.get_char(k) != b.get_char(k) {
            return false;
        }
        k = k + 1;
    }
    assert(a@ =~= b@);
    true
}

/// The value of the first header of `headers` called `name`.
pub fn get_header<'a>(headers: &'a Vec<Header>, name: &str) -> (res: Option<&'a Vec<u8>>)
    ensures
        match res {
            Some(v) => lookup(headers_view(headers@), name@) == Some(v@),
            None => lookup(headers_view(headers@), name@) is None,
        },
{
    let ghost hv = headers_view(headers@);
    let mut i: usize = 0;
    assert(hv.skip(0) =~= hv);
    while i < headers.len()
        invariant
            i <= headers@.len(),
            hv == headers_view(headers@),
            lookup(hv, name@) == lookup(hv.skip(i as int), name@),
        decreases headers@.len() - i,
    {
        let ghost rest = hv.skip(i as int);
        assert(rest[0] == (headers@[i as int].0@, headers@[i as int].1@));
        if text_eq(headers[i].0.as_str(), name) {
            return Some(&headers[i].1);
        }
        assert(rest.drop_first() =~= hv.skip(i + 1));
        i = i + 1;
    }
    None
}

/// `b` may stand in a header value that is read as text: visible ASCII or a tab.
pub open spec fn is_visible_ascii(b: u8) -> bool {
    (32 <= b && b < 127) || b == 9
}

/// The text of a header value, when every byte of it is visible ASCII or a tab, as
/// `HeaderValue::to_str` reads it.
pub open spec fn header_text(v: Seq<u8>) -> Option<Seq<char>> {
    if forall|k: int| 0 <= k < v.len() ==> is_visible_ascii(#[trigger] v[k]) {
        Some(v.map_values(|b: u8| b as char))
    } else {
        None
    }
}

/// The text of a header value, as `header_text` states it.
pub fn header_value_text(v: &Vec<u8>) -> (res: Option<String>)
    ensures
        match header_text(v@) {
            Some(t) => res matches Some(s) && s@ == t,
            None => res is None,
        },
{
    let mut out: Vec<char> = Vec::new();
    let mut k: usize = 0;
    while k < v.len()
        invariant
            k <= v@.len(),
            out@ == v@.take(k as int).map_values(|b: u8| b as char),
            forall|m: int| 0 <= m < k ==> is_visible_ascii(#[trigger] v@[m]),
        decreases v@.len() - k,
    {
        let b = v[k];
        if !((32 <= b && b < 127) || b == 9) {
            assert(!is_visible_ascii(v@[k as int]));
            return None;
        }
        out.push(b as char);
        k = k + 1;
        assert(out@ =~= v@.take(k as int).map_values(|b: u8| b as char));
    }
    assert(v@.take(v@.len() as int) =~= v@);
    Some(string_from_chars(&out))
}

/// `c` may stand in a header name (an RFC 9110 `tchar`).
pub open spec fn is_tchar(c: char) -> bool {
    ||| is_ascii_alnum(c)
    ||| c == '!' || c == '#' || c == '$' || c == '%' || c == '&' || c == '\'' || c == '*'
    ||| c == '+' || c == '-' || c == '.' || c == '^' || c == '_' || c == '`' || c == '|' || c
        == '~'
}

/// The header name that `http`'s `HeaderName::from_str` makes of `t`: a text of 1 to 65535
/// `tchar`s, lower-cased.
pub open spec fn header_name_spec(t: Seq<char>) -> Option<Seq<char>> {
    if 1 <= t.len() <= 65535 && (forall|k: int| 0 <= k < t.len() ==> is_tchar(#[trigger] t[k])) {
        Some(ascii_lowercase(t))
    } else {
        None
    }
}

/// Reads a header name as `header_name_spec` states it.
pub fn parse_header_name(t: &str) -> (res: Option<String>)
    ensures
        match header_name_spec(t@) {
            Some(h) => res matches Some(s) && s@ == h,
            None => res is None,
        },
{
    let n = t.unicode_len();
    if n == 0 || n > 65535 {
        return None;
    }
    let mut out: Vec<char> = Vec::new();
    let mut k: usize = 0;
    while k < n
        invariant
            n == t@.len(),
            k <= n,
            out@ == ascii_lowercase(t@).take(k as int),
            forall|m: int| 0 <= m < k ==> is_tchar(#[trigger] t@[m]),
        decreases n - k,
    {
        let c = t.get_char(k);
        let ok = ('a' <= c && c <= 'z') || ('A' <= c && c <= 'Z') || ('0' <= c && c <= '9') || c
            == '!' || c == '#' || c == '$' || c == '%' || c == '&' || c == '\'' || c == '*' || c
            == '+' || c == '-' || c == '.' || c == '^' || c == '_' || c == '`' || c == '|' || c
            == '~';
        if !ok {
            assert(!is_tchar(t@[k as int]));
            return None;
        }
        let lc = if 'A' <= c && c <= 'Z' {
            ((c as u8) + 32) as char
        } else {
            c
        };
        assert(lc == ascii_lower(c));
        out.push(lc);
        k = k + 1;
        assert(out@ =~= ascii_lowercase(t@).take(k as int));
    }
    assert(ascii_lowercase(t@).take(n as int) =~= ascii_lowercase(t@));
    Some(string_from_chars(&out))
}

} // verus!
