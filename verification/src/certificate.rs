//! One credential: from an owned blob of PEM text to a zero-terminated view
//! that lives as long as the process.

use crate::nul::{
    ends_in_nul, first_nul, has_nul, is_first_nul, lemma_first_nul, lemma_first_nul_is,
    lemma_through_nul, read_through_nul, read_until_nul, through_nul, until_nul, NUL,
};
use vstd::prelude::*;

verus! {

/// The content of the view made from a blob: the blob's bytes, then one zero
/// byte.
pub open spec fn materialized(blob: Seq<u8>) -> Seq<u8> {
    blob.push(NUL)
}

/// A read-only view of one credential's bytes. It borrows from nobody: the
/// storage behind it is never given back. Its last byte is always zero.
///
/// The type has no `Debug`: a view may show a private key.
#[derive(Clone, Copy)]
pub struct CertificateView {
    bytes: &'static [u8],
}

impl View for CertificateView {
    type V = Seq<u8>;

    closed spec fn view(&self) -> Seq<u8> {
        self.bytes@
    }
}

impl CertificateView {
    #[verifier::type_invariant]
    spec fn terminated(&self) -> bool {
        ends_in_nul(self.bytes@)
    }

    /// All bytes of the view, the closing zero byte among them.
    pub fn as_bytes(&self) -> (bytes: &'static [u8])
        ensures
            bytes@ == self@,
            ends_in_nul(bytes@),
    {
        proof {
            use_type_invariant(self);
        }
        self.bytes
    }

    /// The number of bytes in the view, which is never zero.
    pub fn len(&self) -> (n: usize)
        ensures
            n == self@.len(),
            n >= 1,
    {
        proof {
            use_type_invariant(self);
        }
        self.bytes.len()
    }

    /// The credential as the TLS layer reads it: the bytes before the first
    /// zero byte.
    pub fn content(&self) -> (content: &'static [u8])
        ensures
            content@ == until_nul(self@),
            content@.len() < self@.len(),
    {
        proof {
            use_type_invariant(self);
            lemma_first_nul(self@);
            assert(self@[self@.len() - 1] == NUL);
        }
        read_until_nul(self.bytes)
    }

    /// The view cut behind its first zero byte: what a TLS configuration
    /// keeps of it. Where the blob held no zero byte this is the whole view.
    pub fn terminated_pem(&self) -> (kept: &'static [u8])
        ensures
            kept@ == through_nul(self@),
            ends_in_nul(kept@),
            until_nul(kept@) == until_nul(self@),
    {
        proof {
            use_type_invariant(self);
            assert(self@[self@.len() - 1] == NUL);
            lemma_through_nul(self@);
        }
        read_through_nul(self.bytes).unwrap()
    }
}

/// `Vec::leak` of std: gives up the vector without freeing its storage and
/// hands out a reference to its elements that never expires. The contract
/// claims that the reference shows the elements the vector held, in order.
#[verifier::external_body]
fn leak(buffer: Vec<u8>) -> (bytes: &'static [u8])
    ensures
        bytes@ == buffer@,
{
    buffer.leak()
}

/// Appends one zero byte to the blob, gives up ownership of its storage
/// without freeing it, and returns a view of that storage. Never fails. The
/// blob is not examined: zero bytes it already holds stay where they are.
pub fn convert_certificate(certificate_bytes: Vec<u8>) -> (certificate: CertificateView)
    ensures
        certificate@ == materialized(certificate_bytes@),
        certificate@.len() == certificate_bytes@.len() + 1,
        certificate@.take(certificate_bytes@.len() as int) == certificate_bytes@,
        certificate@[certificate_bytes@.len() as int] == NUL,
{
    proof {
        lemma_materialized_layout(certificate_bytes@);
    }
    let mut buffer = certificate_bytes;
    buffer.push(NUL);
    CertificateView { bytes: leak(buffer) }
}

/// The view holds one byte more than the blob: the blob's bytes, each at its
/// index, and a zero byte behind them.
pub proof fn lemma_materialized_layout(blob: Seq<u8>)
    ensures
        materialized(blob).len() == blob.len() + 1,
        forall|i: int| 0 <= i < blob.len() ==> materialized(blob)[i] == blob[i],
        materialized(blob)[blob.len() as int] == NUL,
        materialized(blob).take(blob.len() as int) == blob,
        ends_in_nul(materialized(blob)),
        has_nul(materialized(blob)),
{
    assert(materialized(blob).take(blob.len() as int) =~= blob);
    assert(materialized(blob)[blob.len() as int] == NUL);
}

/// From the view of a blob without a zero byte, a reader that stops at the
/// first zero byte gets exactly the blob, and a holder that cuts behind that
/// byte keeps the whole view.
pub proof fn lemma_reader_recovers_blob(blob: Seq<u8>)
    requires
        !has_nul(blob),
    ensures
        first_nul(materialized(blob)) == Some(blob.len() as int),
        until_nul(materialized(blob)) == blob,
        through_nul(materialized(blob)) == materialized(blob),
{
    let view = materialized(blob);
    assert forall|j: int| 0 <= j < blob.len() implies view[j] != NUL by {
        assert(view[j] == blob[j]);
    }
    assert(is_first_nul(view, blob.len() as int));
    lemma_first_nul_is(view, blob.len() as int);
    assert(view.take(blob.len() as int) =~= blob);
    assert(view.take(view.len() as int) =~= view);
}

/// Whatever the blob holds, a reader that stops at the first zero byte gets
/// from the view what it would get from the blob: a zero byte inside the
/// blob hides all that follows it.
pub proof fn lemma_reader_stops_at_embedded_nul(blob: Seq<u8>)
    ensures
        until_nul(materialized(blob)) == until_nul(blob),
        has_nul(blob) ==> first_nul(materialized(blob)) == first_nul(blob),
{
    lemma_first_nul(blob);
    match first_nul(blob) {
        Some(i) => {
            let view = materialized(blob);
            assert(view[i] == blob[i]);
            assert forall|j: int| 0 <= j < i implies view[j] != NUL by {
                assert(view[j] == blob[j]);
            }
            lemma_first_nul_is(view, i);
            assert(view.take(i) =~= blob.take(i));
        },
        None => {
            lemma_reader_recovers_blob(blob);
        },
    }
}

/// Two views hold the same bytes exactly where the blobs they were made from
/// do: the content of a view depends on the content of its blob and on
/// nothing else.
pub proof fn lemma_equal_blobs_equal_views(first: Seq<u8>, second: Seq<u8>)
    ensures
        first == second <==> materialized(first) == materialized(second),
{
    if materialized(first) == materialized(second) {
        assert(materialized(first).drop_last() =~= first);
        assert(materialized(second).drop_last() =~= second);
    }
}

/// The view of the empty blob is the zero byte alone.
pub proof fn lemma_materialized_empty()
    ensures
        materialized(Seq::<u8>::empty()) == seq![NUL],
        materialized(Seq::<u8>::empty()).len() == 1,
{
    assert(materialized(Seq::<u8>::empty()) =~= seq![NUL]);
}

/// A zero byte at the end of the blob is kept: the view then ends in two
/// zero bytes and is still one byte longer than the blob.
pub proof fn lemma_trailing_nul_is_kept(blob: Seq<u8>)
    requires
        ends_in_nul(blob),
    ensures
        materialized(blob).len() == blob.len() + 1,
        materialized(blob)[blob.len() - 1] == NUL,
        materialized(blob)[blob.len() as int] == NUL,
{
}

} // verus!
