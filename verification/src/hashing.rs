//! The Blake2 hash that the runtime's cryptographic checks rely on.

use vstd::prelude::*;

verus! {

/// The 128-bit Blake2b digest of `data`.
pub uninterp spec fn blake2_128_digest(data: Seq<u8>) -> Seq<u8>;

/// Hashes `data` with `sp_io::hashing::blake2_128`. Trusted: the result is
/// the named digest of the input, and it is 16 bytes long (the function
/// returns a `[u8; 16]`). Nothing is stated of the digest's values.
#[verifier::external_body]
pub fn blake2_128(data: &[u8]) -> (r: Vec<u8>)
    ensures
        r@ == blake2_128_digest(data@),
        r@.len() == 16,
{
    sp_io::hashing::blake2_128(data).to_vec()
}

} // verus!
