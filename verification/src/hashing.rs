//! Hash functions of the runtime.
use vstd::prelude::*;

verus! {

/// The 256-bit BLAKE2b digest of `data`.
pub uninterp spec fn spec_blake2_256(data: Seq<u8>) -> Seq<u8>;

/// `sp_core::hashing::blake2_256`: the 256-bit BLAKE2b digest of `data`,
/// a function of `data` alone.
#[verifier::external_body]
pub fn blake2_256(data: &[u8]) -> (h: [u8; 32])
    ensures
        h@ == spec_blake2_256(data@),
{
    sp_core::hashing::blake2_256(data)
}

} // verus!
