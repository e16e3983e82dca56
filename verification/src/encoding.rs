//! Digests, message authentication codes and text encodings that the library takes
//! from `sha2`, `hmac`, `base64` and `urlencoding`.
use vstd::prelude::*;

use base64::Engine;

use crate::chars::is_ascii_alnum;

verus! {

/// The SHA-256 digest of `data`, as `sha2::Sha256::digest` computes it.
pub uninterp spec fn sha256(data: Seq<u8>) -> Seq<u8>;

/// The HMAC-SHA256 tag of `message` under `key`, as `hmac::Hmac<sha2::Sha256>` computes it.
pub uninterp spec fn hmac_sha256(key: Seq<u8>, message: Seq<u8>) -> Seq<u8>;

/// The base-64 digit of the six-bit value `v` in the alphabet whose last two digits are `c62`
/// and `c63`: the upper-case letters, the lower-case letters, the decimal digits, then those two
/// (RFC 4648).
pub open spec fn base64_digit(v: u8, c62: char, c63: char) -> char {
    if v < 26 {
        (65 + v) as char
    } else if v < 52 {
        (97 + (v - 26)) as char
    } else if v < 62 {
        (48 + (v - 52)) as char
    } else if v == 62 {
        c62
    } else {
        c63
    }
}

/// The padded base-64 text of `data` in the alphabet that ends in `c62` and `c63`: each group of
/// three bytes gives four digits, and a last group of one or two bytes gives two or three digits
/// filled up with `=` to four (RFC 4648).
pub open spec fn base64_text(data: Seq<u8>, c62: char, c63: char) -> Seq<char>
    decreases data.len(),
{
    if data.len() == 0 {
        Seq::empty()
    } else if data.len() == 1 {
        seq![base64_digit(data[0] >> 2u8, c62, c63), base64_digit((data[0] & 3u8) << 4u8, c62, c63), '=', '=']
    } else if data.len() == 2 {
        seq![
            base64_digit(data[0] >> 2u8, c62, c63),
            base64_digit(((data[0] & 3u8) << 4u8) | (data[1] >> 4u8), c62, c63),
            base64_digit((data[1] & 15u8) << 2u8, c62, c63),
            '=',
        ]
    } else {
        seq![
            base64_digit(data[0] >> 2u8, c62, c63),
            base64_digit(((data[0] & 3u8) << 4u8) | (data[1] >> 4u8), c62, c63),
            base64_digit(((data[1] & 15u8) << 2u8) | (data[2] >> 6u8), c62, c63),
            base64_digit(data[2] & 63u8, c62, c63),
        ] + base64_text(data.skip(3), c62, c63)
    }
}

/// The standard base-64 text (with padding) of `data`, as `BASE64_STANDARD.encode` writes it:
/// the alphabet ends in `+` and `/`.
pub open spec fn base64_standard(data: Seq<u8>) -> Seq<char> {
    base64_text(data, '+', '/')
}

/// The URL-safe base-64 text (with padding) of `data`, as `BASE64_URL_SAFE.encode` writes it:
/// the alphabet ends in `-` and `_`.
pub open spec fn base64_url_safe(data: Seq<u8>) -> Seq<char> {
    base64_text(data, '-', '_')
}

/// The bytes that `BASE64_STANDARD.decode` reads from `text`, if it reads any.
pub uninterp spec fn base64_standard_decoded(text: Seq<char>) -> Option<Seq<u8>>;

/// The bytes that `BASE64_URL_SAFE.decode` reads from `text`, if it reads any.
pub uninterp spec fn base64_url_safe_decoded(text: Seq<char>) -> Option<Seq<u8>>;

/// The bytes that `BASE64_URL_SAFE_NO_PAD.decode` reads from `text`, if it reads any.
pub uninterp spec fn base64_url_safe_no_pad_decoded(text: Seq<char>) -> Option<Seq<u8>>;

/// A byte that `urlencoding::encode` leaves as it is: an ASCII letter or digit, `-`, `.`, `_`
/// or `~`.
pub open spec fn url_unreserved(b: u8) -> bool {
    (48 <= b <= 57) || (65 <= b <= 90) || (97 <= b <= 122) || b == 45 || b == 46 || b == 95 || b == 126
}

/// The upper-case hexadecimal digit of `d`, below sixteen.
pub open spec fn upper_hex_digit(d: u8) -> char {
    if d < 10 {
        (48 + d) as char
    } else {
        (55 + d) as char
    }
}

/// The percent-encoded form of the bytes `bytes`: each unreserved byte as its character, each
/// other one as `%` and its two upper-case hexadecimal digits.
pub open spec fn url_encoded_bytes(bytes: Seq<u8>) -> Seq<char>
    decreases bytes.len(),
{
    if bytes.len() == 0 {
        Seq::empty()
    } else {
        (if url_unreserved(bytes[0]) {
            seq![bytes[0] as char]
        } else {
            seq!['%', upper_hex_digit(bytes[0] / 16), upper_hex_digit(bytes[0] % 16)]
        }) + url_encoded_bytes(bytes.drop_first())
    }
}

/// The percent-encoded form of `text`, as `urlencoding::encode` writes it: the encoding of its
/// UTF-8 bytes.
pub open spec fn url_encoded(text: Seq<char>) -> Seq<char> {
    url_encoded_bytes(vstd::utf8::encode_utf8(text))
}

/// The text that `urlencoding::decode` reads from `text`, if the decoded bytes are UTF-8.
pub uninterp spec fn url_decoded(text: Seq<char>) -> Option<Seq<char>>;

/// `sha2::Sha256::digest`: the 32-byte SHA-256 digest of `data`.
#[verifier::external_body]
pub(crate) fn sha256_digest(data: &[u8]) -> (res: Vec<u8>)
    ensures
        res@ == sha256(data@),
        res@.len() == 32,
{
    <sha2::Sha256 as sha2::Digest>::digest(data).to_vec()
}

/// `hmac::Hmac<sha2::Sha256>`: keyed with `key` (which accepts a key of any length), fed
/// `message`, then `verify_slice(tag)`; true exactly when `tag` is the HMAC-SHA256 tag of
/// `message` under `key`.
#[verifier::external_body]
pub(crate) fn hmac_sha256_verify(key: &[u8], message: &[u8], tag: &[u8]) -> (res: bool)
    ensures
        res == (hmac_sha256(key@, message@) == tag@),
{
    match <hmac::Hmac<sha2::Sha256> as hmac::Mac>::new_from_slice(key) {
        Ok(mut mac) => {
            hmac::Mac::update(&mut mac, message);
            hmac::Mac::verify_slice(mac, tag).is_ok()
        },
        Err(_) => false,
    }
}

/// `base64`'s `BASE64_STANDARD.encode`, with padding.
#[verifier::external_body]
pub(crate) fn encode_base64_standard(data: &[u8]) -> (res: String)
    ensures
        res@ == base64_standard(data@),
{
    base64::prelude::BASE64_STANDARD.encode(data)
}

/// `base64`'s `BASE64_URL_SAFE.encode`. Its text holds only ASCII letters, digits, `-`, `_`
/// and the padding `=`, and the same engine's `decode` reads the bytes back from it.
#[verifier::external_body]
pub(crate) fn encode_base64_url_safe(data: &[u8]) -> (res: String)
    ensures
        res@ == base64_url_safe(data@),
        forall|k: int|
            0 <= k < res@.len() ==> is_ascii_alnum(#[trigger] res@[k]) || res@[k] == '-' || res@[k]
                == '_' || res@[k] == '=',
        base64_url_safe_decoded(res@) == Some(data@),
{
    base64::prelude::BASE64_URL_SAFE.encode(data)
}

/// `base64`'s `BASE64_STANDARD.decode`: the decoded bytes, or `None` where it reports an error.
#[verifier::external_body]
pub(crate) fn decode_base64_standard(text: &str) -> (res: Option<Vec<u8>>)
    ensures
        res is Some <==> base64_standard_decoded(text@) is Some,
        res matches Some(v) ==> base64_standard_decoded(text@) == Some(v@),
{
    base64::prelude::BASE64_STANDARD.decode(text).ok()
}

/// `base64`'s `BASE64_URL_SAFE.decode`: the decoded bytes, or `None` where it reports an error.
#[verifier::external_body]
pub(crate) fn decode_base64_url_safe(text: &str) -> (res: Option<Vec<u8>>)
    ensures
        res is Some <==> base64_url_safe_decoded(text@) is Some,
        res matches Some(v) ==> base64_url_safe_decoded(text@) == Some(v@),
{
    base64::prelude::BASE64_URL_SAFE.decode(text).ok()
}

/// `base64`'s `BASE64_URL_SAFE_NO_PAD.decode`: the decoded bytes, or `None` where it reports an error.
#[verifier::external_body]
pub(crate) fn decode_base64_url_safe_no_pad(text: &str) -> (res: Option<Vec<u8>>)
    ensures
        res is Some <==> base64_url_safe_no_pad_decoded(text@) is Some,
        res matches Some(v) ==> base64_url_safe_no_pad_decoded(text@) == Some(v@),
{
    base64::prelude::BASE64_URL_SAFE_NO_PAD.decode(text).ok()
}

/// `urlencoding::encode`: the unreserved bytes as they are, every other byte as `%XX` in
/// upper-case hexadecimal.
#[verifier::external_body]
pub(crate) fn url_encode(text: &str) -> (res: String)
    ensures
        res@ == url_encoded(text@),
{
    urlencoding::encode(text).into_owned()
}

/// `s` holds a `%`, which starts an escape for `urlencoding::decode`.
pub open spec fn has_percent_sign(s: Seq<char>) -> bool {
    s.contains('%')
}

/// `urlencoding::decode`: the decoded text, or `None` where the decoded bytes are not UTF-8.
/// A text without `%` comes back unchanged.
#[verifier::external_body]
pub(crate) fn url_decode(text: &str) -> (res: Option<String>)
    ensures
        res is Some <==> url_decoded(text@) is Some,
        res matches Some(v) ==> url_decoded(text@) == Some(v@),
        !has_percent_sign(text@) ==> (res is Some && res.unwrap()@ == text@),
{
    urlencoding::decode(text).ok().map(|t| t.into_owned())
}

} // verus!
