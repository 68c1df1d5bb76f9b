//! SCALE encoding of the plain values that the worker answers with.
use vstd::prelude::*;
use parity_scale_codec::Encode;

verus! {

/// The `n` lowest bytes of `x`, least significant first.
pub open spec fn le_bytes(x: nat, n: nat) -> Seq<u8>
    decreases n,
{
    if n == 0 {
        Seq::empty()
    } else {
        seq![(x % 256) as u8] + le_bytes(x / 256, (n - 1) as nat)
    }
}

/// SCALE encoding of a `u32`: its four bytes, little-endian
/// (`Encode::encode` of parity-scale-codec).
#[verifier::external_body]
pub fn encode_u32(x: u32) -> (r: Vec<u8>)
    ensures
        r@ == le_bytes(x as nat, 4),
{
    x.encode()
}

/// SCALE encoding of a `u128`: its sixteen bytes, little-endian
/// (`Encode::encode` of parity-scale-codec).
#[verifier::external_body]
pub fn encode_u128(x: u128) -> (r: Vec<u8>)
    ensures
        r@ == le_bytes(x as nat, 16),
{
    x.encode()
}

} // verus!
