//! The Keccak-256 hash function.

use tiny_keccak::{Hasher, Keccak};
use vstd::prelude::*;

verus! {

/// The Keccak-256 digest of `input`.
pub uninterp spec fn keccak256_digest(input: Seq<u8>) -> Seq<u8>;

/// Hashes `input` with `tiny_keccak::Keccak::v256`: the whole input is absorbed by
/// one `update`, and `finalize` writes the thirty-two bytes of the digest. The digest
/// depends on the bytes of `input` and on nothing else; that it is the digest is
/// taken on trust.
#[verifier::external_body]
pub(crate) fn keccak256(input: &[u8]) -> (digest: [u8; 32])
    ensures
        digest@ == keccak256_digest(input@),
{
    let mut digest = [0u8; 32];
    let mut hasher = Keccak::v256();
    hasher.update(input);
    hasher.finalize(&mut digest);
    digest
}

} // verus!
