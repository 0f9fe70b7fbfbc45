//! The schnorrkel and sha2 operations the verifier composes. Each decoded or
//! derived value is kept beside the bytes it stands for; its fields are
//! private, so only the operations here can pair the two.
use crate::encoding::{signature_decodes, PUBLIC_KEY_LENGTH};
use merlin::Transcript;
use schnorrkel::context::{SigningContext, SigningTranscript};
use schnorrkel::{PublicKey, Signature, SignatureError};
use sha2::{Digest, Sha512_256};
use vstd::prelude::*;

verus! {

#[verifier::external_type_specification]
#[verifier::external_body]
pub struct ExPublicKey(PublicKey);

#[verifier::external_type_specification]
#[verifier::external_body]
pub struct ExSignature(Signature);

#[verifier::external_type_specification]
#[verifier::external_body]
pub struct ExSignatureError(SignatureError);

#[verifier::external_type_specification]
#[verifier::external_body]
pub struct ExSigningContext(SigningContext);

#[verifier::external_type_specification]
#[verifier::external_body]
pub struct ExTranscript(Transcript);

/// Whether `bytes` is the canonical encoding of a Ristretto point, as
/// schnorrkel's public key decoder judges it.
pub uninterp spec fn public_key_decodes(bytes: Seq<u8>) -> bool;

/// Whether schnorrkel's Schnorr equation `s·G = R + c·PK` holds for the
/// public key `key`, the signature `signature`, and the challenge derived
/// from the transcript that binds `context` and the SHA-512/256 digest of
/// `message`.
pub uninterp spec fn schnorrkel_accepts(
    key: Seq<u8>,
    context: Seq<u8>,
    message: Seq<u8>,
    signature: Seq<u8>,
) -> bool;

/// A public key together with the bytes it was decoded from.
pub struct VerifyingKey<'a> {
    encoding: &'a [u8],
    key: PublicKey,
}

impl<'a> VerifyingKey<'a> {
    pub closed spec fn encoding(&self) -> Seq<u8> {
        self.encoding@
    }
}

/// A signature together with the bytes it was decoded from.
pub struct EncodedSignature<'a> {
    encoding: &'a [u8],
    signature: Signature,
}

impl<'a> EncodedSignature<'a> {
    pub closed spec fn encoding(&self) -> Seq<u8> {
        self.encoding@
    }
}

/// A signing context together with the label it was made from.
pub struct DomainContext<'a> {
    label: &'a [u8],
    context: SigningContext,
}

impl<'a> DomainContext<'a> {
    pub closed spec fn label(&self) -> Seq<u8> {
        self.label@
    }
}

/// A transcript of a prehashed message, together with the context label
/// and the message it binds.
pub struct MessageTranscript<'a> {
    context: &'a [u8],
    message: &'a [u8],
    transcript: Transcript,
}

impl<'a> MessageTranscript<'a> {
    pub closed spec fn context(&self) -> Seq<u8> {
        self.context@
    }

    pub closed spec fn message(&self) -> Seq<u8> {
        self.message@
    }
}

/// Relies on schnorrkel's `PublicKey::from_bytes`: it refuses every length
/// but 32, and otherwise succeeds exactly when the bytes decompress to a
/// Ristretto point. The decoded key keeps the bytes it came from.
#[verifier::external_body]
pub(crate) fn decode_public_key<'a>(bytes: &'a [u8]) -> (r: Result<
    VerifyingKey<'a>,
    SignatureError,
>)
    ensures
        r is Ok <==> public_key_decodes(bytes@),
        bytes@.len() != PUBLIC_KEY_LENGTH ==> r is Err,
        r matches Ok(k) ==> k.encoding() == bytes@,
{
    match PublicKey::from_bytes(bytes) {
        Ok(key) => Ok(VerifyingKey { encoding: bytes, key }),
        Err(e) => Err(e),
    }
}

/// Relies on schnorrkel's `Signature::from_bytes`: it refuses every length
/// but 64 and every encoding whose marker bit is clear, and otherwise
/// succeeds exactly when the scalar half, marker cleared, is canonical,
/// that is below the group order. The decoded signature keeps the bytes it
/// came from.
#[verifier::external_body]
pub(crate) fn decode_signature<'a>(bytes: &'a [u8]) -> (r: Result<
    EncodedSignature<'a>,
    SignatureError,
>)
    ensures
        r is Ok <==> signature_decodes(bytes@),
        r matches Ok(s) ==> s.encoding() == bytes@,
{
    match Signature::from_bytes(bytes) {
        Ok(signature) => Ok(EncodedSignature { encoding: bytes, signature }),
        Err(e) => Err(e),
    }
}

/// Relies on schnorrkel's `signing_context`: it accepts any label that
/// merlin can frame, whose length fits in a `u32`, and keeps it in the
/// transcript it starts.
#[verifier::external_body]
pub(crate) fn domain_context<'a>(label: &'a [u8]) -> (r: DomainContext<'a>)
    requires
        label@.len() <= u32::MAX,
    ensures
        r.label() == label@,
{
    DomainContext { label, context: schnorrkel::signing_context(label) }
}

/// Relies on sha2's `Sha512_256`, fed the whole message in one update, and
/// on schnorrkel's `SigningContext::hash256`, which finalizes that hasher
/// and commits the 32-byte digest to a copy of the context's transcript.
#[verifier::external_body]
pub(crate) fn prehashed_transcript<'a>(
    context: &DomainContext<'a>,
    message: &'a [u8],
) -> (r: MessageTranscript<'a>)
    ensures
        r.context() == context.label(),
        r.message() == message@,
{
    let mut hasher = Sha512_256::new();
    hasher.update(message);
    let transcript = context.context.hash256(hasher);
    MessageTranscript { context: context.label, message, transcript }
}

/// Relies on schnorrkel's `PublicKey::verify`: it succeeds exactly when the
/// Schnorr equation holds for the key, the transcript and the signature,
/// which it reads and nothing else.
#[verifier::external_body]
pub(crate) fn check_equation(
    key: &VerifyingKey<'_>,
    transcript: MessageTranscript<'_>,
    signature: &EncodedSignature<'_>,
) -> (r: Result<(), SignatureError>)
    ensures
        r is Ok <==> schnorrkel_accepts(
            key.encoding(),
            transcript.context(),
            transcript.message(),
            signature.encoding(),
        ),
{
    key.key.verify(transcript.transcript, &signature.signature)
}

} // verus!
