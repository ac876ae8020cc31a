//! The signer capability and its concrete hash-then-sign realization.
//!
//! A `BeefyPair` lets round logic be written once against "sign this
//! commitment" while each concrete key type fixes its own scheme. The one
//! realization here signs the Keccak-256 digest of the message with a
//! recoverable ECDSA signature, matching the convention of an external
//! verifier that recovers the public key from signature and digest.

use vstd::prelude::*;

use crate::ecdsa::sign_prehashed;
use crate::ecdsa::signature_of;
use crate::keccak::keccak256_of;
use crate::keccak::keccak_256;

verus! {

/// A signing capability over signature type `S`.
///
/// A key pair implements this for the signature type of its scheme. The
/// scheme fixes, through `spec_sign`, which signature each message gets, and
/// `sign` must return exactly that value: signing is a pure function of
/// identity and message, with no other state.
pub trait BeefyPair<S> {
    /// The signature the scheme assigns to `message` under this identity.
    spec fn spec_sign(&self, message: Seq<u8>) -> S;

    /// Sign `message`.
    fn sign(&self, message: &[u8]) -> (signature: S)
        ensures
            signature == self.spec_sign(message@),
    ;
}

impl BeefyPair<sp_core::ecdsa::Signature> for sp_core::ecdsa::Pair {
    /// Hash-then-sign: the signature commits to the Keccak-256 digest of
    /// the message, never to the raw message bytes.
    open spec fn spec_sign(&self, message: Seq<u8>) -> sp_core::ecdsa::Signature {
        signature_of(*self, keccak256_of(message))
    }

    fn sign(&self, message: &[u8]) -> (signature: sp_core::ecdsa::Signature) {
        let digest: [u8; 32] = keccak_256(message);
        sign_prehashed(self, &digest)
    }
}

/// Law: the capability never diverges from its documented algorithm. For
/// any identity and any message, the signature it is bound to return is the
/// one the pre-hash curve primitive yields on the Keccak-256 digest of that
/// message — the digest step is part of the scheme, not optional per call.
pub proof fn lemma_sign_equals_sign_prehashed_keccak(
    pair: sp_core::ecdsa::Pair,
    message: Seq<u8>,
)
    ensures
        pair.spec_sign(message) == signature_of(pair, keccak256_of(message)),
{
}

/// Law: signing is deterministic. Any two signatures that the capability's
/// contract allows for the same identity and the same message are equal,
/// byte for byte.
pub proof fn lemma_sign_deterministic(
    pair: sp_core::ecdsa::Pair,
    message: Seq<u8>,
    first: sp_core::ecdsa::Signature,
    second: sp_core::ecdsa::Signature,
)
    requires
        first == pair.spec_sign(message),
        second == pair.spec_sign(message),
    ensures
        first == second,
{
}

} // verus!
