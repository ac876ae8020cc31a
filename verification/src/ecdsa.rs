//! Trusted surface over the outside curve primitive.
//!
//! The key pair and the signature are values of the outside crate and stay
//! opaque here: the library never looks inside them, it only carries them
//! between the caller and the curve. What the contracts need of the curve is
//! said once, on the small wrappers below, and everything else is proved.

use vstd::prelude::*;

verus! {

#[verifier::external_type_specification]
#[verifier::external_body]
#[verifier::reject_recursive_types(T)]
pub struct ExCryptoBytes<const N: usize, T>(sp_core::crypto_bytes::CryptoBytes<N, T>);

#[verifier::external_type_specification]
#[verifier::external_body]
pub struct ExPublicTag(sp_core::crypto_bytes::PublicTag);

#[verifier::external_type_specification]
#[verifier::external_body]
pub struct ExSignatureTag(sp_core::crypto_bytes::SignatureTag);

#[verifier::external_type_specification]
#[verifier::external_body]
pub struct ExEcdsaTag(sp_core::ecdsa::EcdsaTag);

#[verifier::external_type_specification]
#[verifier::external_body]
#[verifier::reject_recursive_types(PUBLIC)]
pub struct ExGenericPair<PUBLIC>(sp_core::ecdsa::GenericPair<PUBLIC>);

/// The recoverable signature that an identity's key yields over a given
/// 32-byte digest. The curve primitive derives its nonce deterministically
/// from key and digest, so the signature is a function of the two alone;
/// its value is otherwise left uninterpreted.
pub uninterp spec fn signature_of(pair: sp_core::ecdsa::Pair, digest: Seq<u8>) -> sp_core::ecdsa::Signature;

/// Relies on sp_core::ecdsa::Pair::sign_prehashed: it signs the given
/// 32-byte digest directly — no further hashing or length prefix — with the
/// pair's secret key, and secp256k1 derives the nonce deterministically
/// (RFC 6979) from key and digest, so equal inputs give equal signatures.
#[verifier::external_body]
pub(crate) fn sign_prehashed(pair: &sp_core::ecdsa::Pair, digest: &[u8; 32]) -> (signature: sp_core::ecdsa::Signature)
    ensures
        signature == signature_of(*pair, digest@),
{
    pair.sign_prehashed(digest)
}

/// The canonical byte encoding of a signature: a function of the signature
/// value alone, left uninterpreted beyond its width.
pub uninterp spec fn encoding_of(signature: sp_core::ecdsa::Signature) -> Seq<u8>;

/// Relies on parity_scale_codec::Encode for the signature type: the SCALE
/// encoding of a fixed 65-byte array is exactly those 65 bytes, with no
/// length prefix, so it is determined by the signature value.
#[verifier::external_body]
fn encode_signature_raw(signature: &sp_core::ecdsa::Signature) -> (bytes: Vec<u8>)
    ensures
        bytes@ == encoding_of(*signature),
        bytes@.len() == 65,
{
    parity_scale_codec::Encode::encode(signature)
}

/// Canonical byte encoding of a signature, used when a commitment and the
/// signature over it are serialized for transmission or external
/// verification.
pub fn encode_signature(signature: &sp_core::ecdsa::Signature) -> (bytes: Vec<u8>)
    ensures
        bytes@ == encoding_of(*signature),
        bytes@.len() == 65,
{
    encode_signature_raw(signature)
}

} // verus!
