//! SHA3-256, computed by the `tiny-keccak` crate.

use vstd::prelude::*;

verus! {

/// The SHA3-256 digest of `data`, as FIPS 202 defines it: a sequence of 32
/// bytes that depends on `data` alone.
pub uninterp spec fn sha3_256(data: Seq<u8>) -> Seq<u8>;

/// Runs `tiny_keccak::Sha3::v256` over `data`: one `update` with the whole
/// input, then `finalize` into a 32-byte buffer. The contract is taken on
/// trust: it says that what comes back is the SHA3-256 digest of the input.
#[verifier::external_body]
pub(crate) fn sha3_256_digest(data: &[u8]) -> (digest: [u8; 32])
    ensures
        digest@ == sha3_256(data@),
{
    let mut hasher = tiny_keccak::Sha3::v256();
    let mut digest = [0u8; 32];
    tiny_keccak::Hasher::update(&mut hasher, data);
    tiny_keccak::Hasher::finalize(hasher, &mut digest);
    digest
}

} // verus!
