//! Commitment signing for a finality gadget.
//!
//! A validator taking part in the gadget must attest to an opaque commitment
//! with a signature that an external verifier can check by public-key
//! recovery. The convention the verifier expects is fixed: hash the
//! commitment bytes with Keccak-256, then sign the 32-byte digest with a
//! recoverable ECDSA signature over secp256k1. Signing the raw message, or
//! hashing with anything else, would yield a signature that the native
//! protocol accepts but the external verifier rejects, so the hash-then-sign
//! order is part of the scheme's contract here, not an implementation detail.

pub mod ecdsa;
pub mod keccak;
pub mod pair;
