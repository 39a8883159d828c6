//! The commitment hasher: fingerprints proofs and binds revealed orders to
//! their commitments.

use vstd::prelude::*;

verus! {

/// The digest that the commitment hasher assigns to a byte sequence.
///
/// The hasher is SHA-256 as computed by
/// `anchor_lang::solana_program::hash::hash`; its value is not spelled out
/// here, only that equal inputs have equal digests.
pub uninterp spec fn hash_digest(data: Seq<u8>) -> [u8; 32];

/// Hashes `data` with `anchor_lang::solana_program::hash::hash` and returns
/// the 32 bytes of the resulting `Hash`.
///
/// Trusted: the result is the digest named by [`hash_digest`], a function of
/// the input bytes alone.
#[verifier::external_body]
pub(crate) fn hash_bytes(data: &[u8]) -> (digest: [u8; 32])
    ensures
        digest == hash_digest(data@),
{
    anchor_lang::solana_program::hash::hash(data).to_bytes()
}

/// Whether two digests hold the same bytes.
pub fn digest_eq(a: &[u8; 32], b: &[u8; 32]) -> (same: bool)
    ensures
        same == (*a == *b),
{
    let mut i: usize = 0;
    while i < 32
        invariant
            i <= 32,
            forall|j: int| 0 <= j < i ==> a@[j] == b@[j],
        decreases 32 - i,
    {
        if a[i] != b[i] {
            return false;
        }
        i = i + 1;
    }
    assert(a@ =~= b@);
    assert(*a =~= *b);
    true
}

} // verus!
