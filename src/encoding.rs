//! The byte layout of public keys and signatures.
use vstd::arithmetic::power2::pow2;
use vstd::prelude::*;

verus! {

/// Length in bytes of a compressed Ristretto public key.
pub const PUBLIC_KEY_LENGTH: usize = 32;

/// Length in bytes of an encoded `(R, s)` signature.
pub const SIGNATURE_LENGTH: usize = 64;

/// The public key made of 32 zero bytes: the encoding of the identity point.
pub open spec fn identity_public_key() -> Seq<u8> {
    Seq::new(PUBLIC_KEY_LENGTH as nat, |i: int| 0u8)
}

/// The value of `bytes` read as a little-endian unsigned integer.
pub open spec fn le_value(bytes: Seq<u8>) -> nat
    decreases bytes.len(),
{
    if bytes.len() == 0 {
        0
    } else {
        bytes[0] as nat + 256 * le_value(bytes.drop_first())
    }
}

/// The order `l = 2^252 + 27742317777372353535851937790883648493` of the
/// Ristretto group.
pub open spec fn group_order() -> nat {
    pow2(252) + 27742317777372353535851937790883648493nat
}

/// Whether the high bit of the last byte, which marks a schnorrkel signature
/// apart from an ed25519 one, is set.
pub open spec fn has_schnorrkel_marker(bytes: Seq<u8>) -> bool {
    bytes.len() == SIGNATURE_LENGTH && bytes[SIGNATURE_LENGTH - 1] & 128u8 != 0
}

/// The scalar half `s` of a signature: its upper 32 bytes with the marker
/// bit cleared.
pub open spec fn scalar_half(bytes: Seq<u8>) -> Seq<u8> {
    bytes.subrange(32, 63).push(bytes[63] & 127u8)
}

/// Whether `bytes` decodes to a schnorrkel signature: 64 bytes, the marker
/// bit set, and a scalar half below the group order. The lower half, the
/// commitment `R`, is kept compressed and only compared during verification.
pub open spec fn signature_decodes(bytes: Seq<u8>) -> bool {
    has_schnorrkel_marker(bytes) && le_value(scalar_half(bytes)) < group_order()
}

} // verus!
