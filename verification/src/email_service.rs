//! The e-mail service: the raw message built from a send request, and the request that hands
//! it to Amazon SES.
use vstd::prelude::*;

use mail_builder::headers::address::Address;

use crate::emails::{EmailAddress, SendEmailRequest};
use crate::encoding::{base64_standard, encode_base64_standard, sha256, sha256_digest};
use crate::sessions::{hex_string, hex_text};

verus! {

/// The display name and the address of an e-mail address.
pub open spec fn mailbox(a: EmailAddress) -> (Option<Seq<char>>, Seq<char>) {
    (
        match a.name {
            Some(n) => Some(n@),
            None => None,
        },
        a.address@,
    )
}

/// Every message that `mail_builder`'s `MessageBuilder` writes from the sender `from`, the
/// recipient `to`, the subject, a plain-text and an HTML body: one for each date, message
/// identifier and MIME boundary that it draws from the clock and the host. The set is
/// determined by these parts; which member a call writes depends on when and where it runs.
pub uninterp spec fn mail_messages(
    from: (Option<Seq<char>>, Seq<char>),
    to: (Option<Seq<char>>, Seq<char>),
    subject: Seq<char>,
    text: Seq<char>,
    html: Seq<char>,
) -> Set<Seq<u8>>;

/// `mail_builder`'s `MessageBuilder` with the sender, the recipient, the subject, a plain-text
/// and an HTML body, written with `write_to_vec`. Writing into a `Vec` does not fail, so a
/// message always comes back; it is one of the messages these parts give, which one depends on
/// the date, message identifier and MIME boundary that it draws.
#[verifier::external_body]
fn write_message(from: EmailAddress, to: EmailAddress, subject: String, text: String, html: String) -> (res: Option<Vec<u8>>)
    ensures
        res is Some,
        res matches Some(m) ==> mail_messages(mailbox(from), mailbox(to), subject@, text@, html@).contains(m@),
{
    mail_builder::MessageBuilder::new()
        .from(Address::new_address(from.name, from.address))
        .to(Address::new_address(to.name, to.address))
        .subject(subject)
        .text_body(text)
        .html_body(html)
        .write_to_vec()
        .ok()
}

/// Why a send request could not be turned into a message.
#[derive(Debug, Clone, Copy, PartialEq, Eq, Structural)]
pub enum BuildEmailError {
    /// The request names no sender.
    MissingFrom,
    /// The request names no recipient.
    MissingTo,
    /// The message could not be written.
    Write,
}

/// The raw message of a send request, which must name a sender and a recipient: a message from
/// the sender to the recipient with the request's subject, plain-text and HTML bodies.
pub fn build_raw_email(send_request: SendEmailRequest) -> (res: Result<Vec<u8>, BuildEmailError>)
    ensures
        res == Err::<Vec<u8>, BuildEmailError>(BuildEmailError::MissingFrom) <==> send_request.from is None,
        res == Err::<Vec<u8>, BuildEmailError>(BuildEmailError::MissingTo) <==> (send_request.from is Some
            && send_request.to is None),
        res is Ok <==> (send_request.from is Some && send_request.to is Some),
        res matches Ok(m) ==> mail_messages(
            mailbox(send_request.from->0),
            mailbox(send_request.to->0),
            send_request.subject@,
            send_request.text@,
            send_request.html@,
        ).contains(m@),
{
    let from = match send_request.from {
        Some(f) => f,
        None => {
            return Err(BuildEmailError::MissingFrom);
        },
    };
    let to = match send_request.to {
        Some(t) => t,
        None => {
            return Err(BuildEmailError::MissingTo);
        },
    };
    match write_message(from, to, send_request.subject, send_request.text, send_request.html) {
        Some(m) => Ok(m),
        None => Err(BuildEmailError::Write),
    }
}

/// The SES v2 endpoint that sends e-mails in the AWS region `region`.
pub open spec fn ses_endpoint_spec(region: Seq<char>) -> Seq<char> {
    "https://email."@ + region + ".amazonaws.com/v2/email/outbound-emails"@
}

/// The JSON body of an SES `SendEmail` request with the raw message `raw_email`: its content
/// is the raw message, base64-encoded.
pub open spec fn ses_payload_spec(raw_email: Seq<u8>) -> Seq<char> {
    "{\"Content\":{\"Raw\":{\"Data\":\""@ + base64_standard(raw_email) + "\"}}}"@
}

/// An SES request before it is signed.
#[derive(Debug, Clone)]
pub struct SesRequest {
    pub uri: String,
    pub content_type: String,
    /// The lower-case hexadecimal SHA-256 digest of the body, for `x-amz-content-sha256`.
    pub content_sha256: String,
    pub body: String,
}

/// The SES request that sends the raw message `raw_email` in the region `region`.
pub fn ses_request(region: &str, raw_email: &[u8]) -> (res: SesRequest)
    ensures
        res.uri@ == ses_endpoint_spec(region@),
        res.content_type@ == "application/x-amz-json-1.1"@,
        res.body@ == ses_payload_spec(raw_email@),
        res.content_sha256@ == hex_text(sha256(res.body@.map_values(|c: char| c as u8))),
{
    let uri = String::from_str("https://email.").concat(region).concat(
        ".amazonaws.com/v2/email/outbound-emails",
    );
    let data = encode_base64_standard(raw_email);
    let body = String::from_str("{\"Content\":{\"Raw\":{\"Data\":\"").concat(data.as_str()).concat(
        "\"}}}",
    );
    let body_bytes = ascii_bytes(body.as_str());
    let digest = sha256_digest(body_bytes.as_slice());
    SesRequest {
        uri,
        content_type: String::from_str("application/x-amz-json-1.1"),
        content_sha256: hex_string(digest.as_slice()),
        body,
    }
}

/// The bytes of the characters of `s`, each taken as a byte; for an ASCII text, its UTF-8 bytes.
fn ascii_bytes(s: &str) -> (res: Vec<u8>)
    ensures
        res@ == s@.map_values(|c: char| c as u8),
{
    let n = s.unicode_len();
    let mut out: Vec<u8> = Vec::new();
    let mut k: usize = 0;
    while k < n
        invariant
            n == s@.len(),
            k <= n,
            out@ =~= s@.take(k as int).map_values(|c: char| c as u8),
        decreases n - k,
    {
        let c = s.get_char(k);
        out.push(c as u8);
        k = k + 1;
        assert(out@ =~= s@.take(k as int).map_values(|c: char| c as u8));
    }
    assert(s@.take(n as int) =~= s@);
    out
}

} // verus!
