//! A t-of-n threshold Schnorr signature scheme over the secp256k1 group.
//!
//! A group of `n` parties jointly holds a secret key such that any `t + 1`
//! of them can produce a valid signature. The crate provides the protocol
//! logic: fixed-width scalar and point codecs, hiding commitments for the
//! commit-reveal key exchange, Feldman verifiable secret sharing with
//! homomorphic combination, the key-generation ceremony, signature-share
//! computation and combination, and signature verification. Group and field
//! arithmetic, hashing and randomness come from an elliptic-curve library
//! and are stated, not proved, at that boundary.

pub mod ceremony;
pub mod codec;
pub mod commitment;
pub mod curve;
pub mod errors;
pub mod interpolate;
pub mod point_codec;
pub mod signer;
pub mod vss;
