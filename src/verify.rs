//! The verifier: four untrusted byte buffers in, one fail-closed verdict out.
use crate::encoding::{
    group_order, identity_public_key, le_value, scalar_half, signature_decodes,
    PUBLIC_KEY_LENGTH, SIGNATURE_LENGTH,
};
use crate::primitives::{
    check_equation, decode_public_key, decode_signature, domain_context, prehashed_transcript,
    public_key_decodes, schnorrkel_accepts,
};
use vstd::prelude::*;

verus! {

/// The verdict on `(pubkey, context, message, signature)`: the key is a
/// decodable point other than the identity, the signature decodes, the
/// context fits a transcript frame, and the Schnorr equation holds for the
/// transcript that binds the context and the message digest.
pub open spec fn signature_valid(
    pubkey: Seq<u8>,
    context: Seq<u8>,
    message: Seq<u8>,
    signature: Seq<u8>,
) -> bool {
    &&& pubkey.len() == PUBLIC_KEY_LENGTH
    &&& pubkey != identity_public_key()
    &&& public_key_decodes(pubkey)
    &&& signature_decodes(signature)
    &&& context.len() <= u32::MAX
    &&& schnorrkel_accepts(pubkey, context, message, signature)
}

/// Whether `pubkey` is the 32 zero bytes that encode the identity point.
pub fn is_identity_public_key(pubkey: &[u8]) -> (r: bool)
    ensures
        r == (pubkey@ == identity_public_key()),
{
    if pubkey.len() != PUBLIC_KEY_LENGTH {
        return false;
    }
    let mut i: usize = 0;
    while i < pubkey.len()
        invariant
            pubkey@.len() == PUBLIC_KEY_LENGTH,
            i <= pubkey@.len(),
            forall|j: int| 0 <= j < i ==> pubkey@[j] == 0u8,
        decreases pubkey@.len() - i,
    {
        if pubkey[i] != 0 {
            assert(pubkey@[i as int] != identity_public_key()[i as int]);
            return false;
        }
        i = i + 1;
    }
    assert(pubkey@ =~= identity_public_key());
    true
}

/// Verifies `signature` over `message` under the domain label `context`
/// and the public key `pubkey`. Any malformed buffer, the identity key, a
/// context too long to frame, and any failed equation give `false`; no
/// failure is told apart from another.
pub fn schnorrkel_verify(pubkey: &[u8], context: &[u8], message: &[u8], signature: &[u8]) -> (r:
    bool)
    ensures
        r == signature_valid(pubkey@, context@, message@, signature@),
{
    if is_identity_public_key(pubkey) {
        return false;
    }
    let key = match decode_public_key(pubkey) {
        Ok(key) => key,
        Err(_) => return false,
    };
    let sig = match decode_signature(signature) {
        Ok(sig) => sig,
        Err(_) => return false,
    };
    if context.len() > u32::MAX as usize {
        return false;
    }
    let domain = domain_context(context);
    let transcript = prehashed_transcript(&domain, message);
    check_equation(&key, transcript, &sig).is_ok()
}

/// A public key buffer of any length but 32 bytes is refused, whatever the
/// other three buffers hold.
pub proof fn lemma_public_key_length_rejected(
    pubkey: Seq<u8>,
    context: Seq<u8>,
    message: Seq<u8>,
    signature: Seq<u8>,
)
    requires
        pubkey.len() != PUBLIC_KEY_LENGTH,
    ensures
        !signature_valid(pubkey, context, message, signature),
{
}

/// The all-zero public key is refused, whatever the other three buffers
/// hold.
pub proof fn lemma_identity_public_key_rejected(
    context: Seq<u8>,
    message: Seq<u8>,
    signature: Seq<u8>,
)
    ensures
        !signature_valid(identity_public_key(), context, message, signature),
{
}

/// A signature buffer of any length but 64 bytes, one whose schnorrkel
/// marker bit is clear, or one whose scalar half is not below the group
/// order is refused, whatever the other three buffers hold.
pub proof fn lemma_malformed_signature_rejected(
    pubkey: Seq<u8>,
    context: Seq<u8>,
    message: Seq<u8>,
    signature: Seq<u8>,
)
    requires
        signature.len() != SIGNATURE_LENGTH || signature[SIGNATURE_LENGTH - 1] & 128u8 == 0
            || le_value(scalar_half(signature)) >= group_order(),
    ensures
        !signature_valid(pubkey, context, message, signature),
{
}

/// A context longer than a transcript frame can hold, `u32::MAX` bytes, is
/// refused rather than aborting.
pub proof fn lemma_oversized_context_rejected(
    pubkey: Seq<u8>,
    context: Seq<u8>,
    message: Seq<u8>,
    signature: Seq<u8>,
)
    requires
        context.len() > u32::MAX,
    ensures
        !signature_valid(pubkey, context, message, signature),
{
}

/// Verification holds no hidden state or randomness: the verdicts on
/// identical inputs, empty context and message included, are equal.
pub proof fn lemma_verdict_deterministic(
    pubkey: Seq<u8>,
    context: Seq<u8>,
    message: Seq<u8>,
    signature: Seq<u8>,
    first: bool,
    second: bool,
)
    requires
        first == signature_valid(pubkey, context, message, signature),
        second == signature_valid(pubkey, context, message, signature),
    ensures
        first == second,
{
}

} // verus!
