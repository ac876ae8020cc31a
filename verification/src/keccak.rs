//! The digest half of the scheme: Keccak-256 over the commitment bytes.
//!
//! The digest is a pure function of the message, so its value is given a
//! name, `keccak256_of`, that the signing contracts can be stated over. The
//! hash itself is computed by the outside primitive; nothing here restates
//! its algorithm.

use vstd::prelude::*;

verus! {

/// The Keccak-256 digest of a byte sequence: 32 bytes, determined by the
/// input alone. The function itself is left uninterpreted; the trusted
/// wrapper below ties it to the outside primitive.
pub uninterp spec fn keccak256_of(message: Seq<u8>) -> Seq<u8>;

/// Relies on sp_crypto_hashing::keccak_256: a deterministic Keccak-256
/// digest of the input, always 32 bytes wide.
#[verifier::external_body]
fn keccak_256_raw(message: &[u8]) -> (digest: [u8; 32])
    ensures
        digest@ == keccak256_of(message@),
{
    sp_crypto_hashing::keccak_256(message)
}

/// Compute the 32-byte Keccak-256 digest of `message`.
///
/// This is the one digest function of the scheme: every signature this
/// library produces commits to the digest computed here, never to the raw
/// message.
pub fn keccak_256(message: &[u8]) -> (digest: [u8; 32])
    ensures
        digest@ == keccak256_of(message@),
{
    keccak_256_raw(message)
}

} // verus!
