//! The services themselves, and what they let browsers send and read across origins.
use vstd::prelude::*;

use std::marker::PhantomData;

use crate::auth::auth_headers;

verus! {

/// The core service: sessions, users, organizations and invitations, over gRPC, gRPC-Web
/// and REST.
pub struct CoreSvc<G> {
    _phantom: PhantomData<G>,
}

impl<G> Default for CoreSvc<G> {
    fn default() -> (res: Self) {
        CoreSvc { _phantom: PhantomData }
    }
}

/// The e-mail service, which sends the e-mails of the core service through Amazon SES and
/// accepts only clients with a certificate of the internal authority.
pub struct EmailSvc<G> {
    _phantom: PhantomData<G>,
}

impl<G> Default for EmailSvc<G> {
    fn default() -> (res: Self) {
        EmailSvc { _phantom: PhantomData }
    }
}

/// The certificates and key, in PEM, of the e-mail service's mutual TLS.
pub trait MtlsInterface {
    /// The certificate of the internal authority that signs the clients' certificates.
    fn mtls_root_cert_pem(&self) -> &[u8];

    /// The service's own certificate.
    fn mtls_cert_pem(&self) -> &[u8];

    /// The service's private key.
    fn mtls_private_key_pem(&self) -> &[u8];
}

/// A loader of records by key that batches the lookups of concurrent requests.
pub trait DataLoader {
    type Key;
    type Value;
    type Error;

    /// The record with the key `key`, if there is one.
    fn load(&self, key: Self::Key) -> Result<Option<Self::Value>, Self::Error>;

    /// The records with the keys `keys` that exist, each with its key.
    fn load_many(&self, keys: Vec<Self::Key>) -> Result<Vec<(Self::Key, Self::Value)>, Self::Error>;
}

/// The request headers that gRPC-Web clients may send across origins: the content type, the
/// two gRPC-Web headers and the five headers of request signing.
pub fn grpc_web_allow_headers() -> (res: Vec<&'static str>)
    ensures
        res@.len() == 8,
        res@[0]@ == "content-type"@,
        res@[1]@ == "x-grpc-web"@,
        res@[2]@ == "grpc-timeout"@,
        res@[3]@ == "scuf-token-id"@,
        res@[4]@ == "scuf-timestamp"@,
        res@[5]@ == "scuf-nonce"@,
        res@[6]@ == "scuf-auth-method"@,
        res@[7]@ == "scuf-auth-hmac"@,
{
    let mut v: Vec<&'static str> = Vec::new();
    v.push("content-type");
    v.push("x-grpc-web");
    v.push("grpc-timeout");
    let auth = auth_headers();
    v.push(auth[0]);
    v.push(auth[1]);
    v.push(auth[2]);
    v.push(auth[3]);
    v.push(auth[4]);
    v
}

/// The response headers that gRPC-Web clients may read across origins.
pub fn grpc_web_expose_headers() -> (res: Vec<&'static str>)
    ensures
        res@.len() == 4,
        res@[0]@ == "grpc-encoding"@,
        res@[1]@ == "grpc-status"@,
        res@[2]@ == "grpc-status-details-bin"@,
        res@[3]@ == "grpc-message"@,
{
    let mut v: Vec<&'static str> = Vec::new();
    v.push("grpc-encoding");
    v.push("grpc-status");
    v.push("grpc-status-details-bin");
    v.push("grpc-message");
    v
}

} // verus!
