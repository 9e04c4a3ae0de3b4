//! The three credentials of a client that authenticates with a certificate.

use crate::certificate::{convert_certificate, materialized, CertificateView};
use crate::nul::{has_nul, until_nul};
use vstd::prelude::*;

verus! {

/// What a TLS client configuration takes for mutual authentication: the
/// root CA that signs the server, the device's own certificate, and the
/// private key that belongs to it.
#[derive(Clone, Copy)]
pub struct TlsIdentity {
    pub server_certificate: CertificateView,
    pub client_certificate: CertificateView,
    pub private_key: CertificateView,
}

impl TlsIdentity {
    /// Whether this identity is the one made from the three blobs: each
    /// view holds its blob's bytes and the closing zero byte.
    pub open spec fn made_from(
        &self,
        server_cert: Seq<u8>,
        client_cert: Seq<u8>,
        private_key: Seq<u8>,
    ) -> bool {
        &&& self.server_certificate@ == materialized(server_cert)
        &&& self.client_certificate@ == materialized(client_cert)
        &&& self.private_key@ == materialized(private_key)
    }

    /// Converts the three blobs, each on its own and in this order. Never
    /// fails; the storage of all three is kept for the life of the process.
    pub fn from_blobs(
        server_cert_bytes: Vec<u8>,
        client_cert_bytes: Vec<u8>,
        private_key_bytes: Vec<u8>,
    ) -> (identity: TlsIdentity)
        ensures
            identity.made_from(server_cert_bytes@, client_cert_bytes@, private_key_bytes@),
    {
        let server_certificate = convert_certificate(server_cert_bytes);
        let client_certificate = convert_certificate(client_cert_bytes);
        let private_key = convert_certificate(private_key_bytes);
        TlsIdentity { server_certificate, client_certificate, private_key }
    }
}

/// Of an identity made from three blobs without a zero byte, the TLS layer
/// reads back the three blobs.
pub proof fn lemma_identity_reads_back(
    identity: TlsIdentity,
    server_cert: Seq<u8>,
    client_cert: Seq<u8>,
    private_key: Seq<u8>,
)
    requires
        identity.made_from(server_cert, client_cert, private_key),
        !has_nul(server_cert),
        !has_nul(client_cert),
        !has_nul(private_key),
    ensures
        until_nul(identity.server_certificate@) == server_cert,
        until_nul(identity.client_certificate@) == client_cert,
        until_nul(identity.private_key@) == private_key,
{
    crate::certificate::lemma_reader_recovers_blob(server_cert);
    crate::certificate::lemma_reader_recovers_blob(client_cert);
    crate::certificate::lemma_reader_recovers_blob(private_key);
}

} // verus!
