//! Zero-terminated byte strings: where the first zero byte stands, and what
//! a reader that stops there gets.

use vstd::prelude::*;

verus! {

/// The byte that ends PEM data handed to the TLS layer.
pub const NUL: u8 = 0;

/// Whether `bytes` holds a zero byte anywhere.
pub open spec fn has_nul(bytes: Seq<u8>) -> bool {
    exists|i: int| 0 <= i < bytes.len() && bytes[i] == NUL
}

/// Whether `bytes` is not empty and its last byte is zero.
pub open spec fn ends_in_nul(bytes: Seq<u8>) -> bool {
    bytes.len() >= 1 && bytes[bytes.len() - 1] == NUL
}

/// Whether `i` is the index of the first zero byte of `bytes`.
pub open spec fn is_first_nul(bytes: Seq<u8>, i: int) -> bool {
    &&& 0 <= i < bytes.len()
    &&& bytes[i] == NUL
    &&& forall|j: int| 0 <= j < i ==> bytes[j] != NUL
}

/// The index of the first zero byte of `bytes`, if it holds one.
pub open spec fn first_nul(bytes: Seq<u8>) -> Option<int> {
    bytes.index_of_first(NUL)
}

/// What a reader gets that stops at the first zero byte: the bytes before
/// it, or all of `bytes` where none is zero.
pub open spec fn until_nul(bytes: Seq<u8>) -> Seq<u8> {
    match first_nul(bytes) {
        Some(i) => bytes.take(i),
        None => bytes,
    }
}

/// What a holder keeps that cuts behind the first zero byte: the bytes up to
/// and with it, or all of `bytes` where none is zero.
pub open spec fn through_nul(bytes: Seq<u8>) -> Seq<u8> {
    match first_nul(bytes) {
        Some(i) => bytes.take(i + 1),
        None => bytes,
    }
}

/// `first_nul` is `None` exactly where no byte is zero, and else the one
/// index that `is_first_nul` accepts.
pub proof fn lemma_first_nul(bytes: Seq<u8>)
    ensures
        match first_nul(bytes) {
            Some(i) => has_nul(bytes) && is_first_nul(bytes, i),
            None => !has_nul(bytes),
        },
{
    bytes.index_of_first_ensures(NUL);
    match first_nul(bytes) {
        Some(i) => {
            assert(bytes[i] == NUL);
        },
        None => {
            if has_nul(bytes) {
                let i = choose|i: int| 0 <= i < bytes.len() && bytes[i] == NUL;
                assert(bytes.contains(bytes[i]));
            }
        },
    }
}

/// A zero byte with no zero byte before it is the first one.
pub proof fn lemma_first_nul_is(bytes: Seq<u8>, i: int)
    requires
        is_first_nul(bytes, i),
    ensures
        first_nul(bytes) == Some(i),
        until_nul(bytes) == bytes.take(i),
{
    lemma_first_nul(bytes);
    assert(has_nul(bytes));
    let k = first_nul(bytes).unwrap();
    assert(is_first_nul(bytes, k));
    if k < i {
        assert(bytes[k] != NUL);
    } else if i < k {
        assert(bytes[i] != NUL);
    }
}

/// What the reader gets holds no zero byte and is a prefix of `bytes`.
pub proof fn lemma_until_nul_is_prefix(bytes: Seq<u8>)
    ensures
        !has_nul(until_nul(bytes)),
        until_nul(bytes).len() <= bytes.len(),
        until_nul(bytes) == bytes.take(until_nul(bytes).len() as int),
{
    lemma_first_nul(bytes);
    match first_nul(bytes) {
        Some(i) => {
            let head = bytes.take(i);
            assert forall|j: int| 0 <= j < head.len() implies head[j] != NUL by {
                assert(head[j] == bytes[j]);
            }
        },
        None => {
            assert(bytes.take(bytes.len() as int) =~= bytes);
        },
    }
}

/// Cutting behind the first zero byte leaves a string that ends in its only
/// zero byte, and the reader gets from it what it got before.
pub proof fn lemma_through_nul(bytes: Seq<u8>)
    requires
        has_nul(bytes),
    ensures
        ends_in_nul(through_nul(bytes)),
        first_nul(through_nul(bytes)) == first_nul(bytes),
        first_nul(bytes) == Some(through_nul(bytes).len() - 1),
        until_nul(through_nul(bytes)) == until_nul(bytes),
        through_nul(bytes) == until_nul(bytes).push(NUL),
{
    lemma_first_nul(bytes);
    let i = first_nul(bytes).unwrap();
    let cut = bytes.take(i + 1);
    assert forall|j: int| 0 <= j < i implies cut[j] != NUL by {
        assert(cut[j] == bytes[j]);
    }
    lemma_first_nul_is(cut, i);
    assert(cut.take(i) =~= bytes.take(i));
    assert(cut =~= bytes.take(i).push(NUL));
}

/// Finds the first zero byte of `bytes`.
pub fn find_nul(bytes: &[u8]) -> (position: Option<usize>)
    ensures
        position.is_some() == has_nul(bytes@),
        match position {
            Some(i) => is_first_nul(bytes@, i as int) && first_nul(bytes@) == Some(i as int),
            None => first_nul(bytes@).is_none(),
        },
{
    let mut i: usize = 0;
    while i < bytes.len()
        invariant
            i <= bytes@.len(),
            forall|j: int| 0 <= j < i ==> bytes@[j] != NUL,
        decreases bytes@.len() - i,
    {
        if bytes[i] == NUL {
            proof {
                lemma_first_nul_is(bytes@, i as int);
            }
            return Some(i);
        }
        i += 1;
    }
    proof {
        lemma_first_nul(bytes@);
    }
    None
}

/// The bytes of `bytes` before its first zero byte; all of them where none
/// is zero.
pub fn read_until_nul(bytes: &[u8]) -> (content: &[u8])
    ensures
        content@ == until_nul(bytes@),
        content@ == bytes@.take(content@.len() as int),
        !has_nul(content@),
{
    proof {
        lemma_until_nul_is_prefix(bytes@);
    }
    match find_nul(bytes) {
        Some(i) => {
            let content = vstd::slice::slice_subrange(bytes, 0, i);
            content
        },
        None => bytes,
    }
}

/// The bytes of `bytes` up to and with its first zero byte, and `None` where
/// no byte is zero.
pub fn read_through_nul(bytes: &[u8]) -> (terminated: Option<&[u8]>)
    ensures
        terminated.is_some() == has_nul(bytes@),
        match terminated {
            Some(kept) => {
                &&& kept@ == through_nul(bytes@)
                &&& kept@ == until_nul(bytes@).push(NUL)
                &&& until_nul(kept@) == until_nul(bytes@)
            },
            None => true,
        },
{
    match find_nul(bytes) {
        Some(i) => {
            let n: usize = bytes.len();
            proof {
                assert(i < n);
                lemma_through_nul(bytes@);
            }
            let terminated = vstd::slice::slice_subrange(bytes, 0, i + 1);
            Some(terminated)
        },
        None => None,
    }
}

} // verus!
