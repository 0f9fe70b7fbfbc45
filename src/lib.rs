//! Verification of Schnorr signatures over the Ristretto group, bound to a
//! domain-separation context and to a SHA-512/256 digest of the message.
mod encoding;
mod primitives;
mod verify;

pub use encoding::{
    group_order, has_schnorrkel_marker, identity_public_key, le_value, scalar_half,
    signature_decodes, PUBLIC_KEY_LENGTH, SIGNATURE_LENGTH,
};
pub use primitives::{public_key_decodes, schnorrkel_accepts};
pub use verify::{
    is_identity_public_key, lemma_identity_public_key_rejected,
    lemma_malformed_signature_rejected, lemma_oversized_context_rejected,
    lemma_public_key_length_rejected, lemma_verdict_deterministic, schnorrkel_verify,
    signature_valid,
};
