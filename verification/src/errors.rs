use vstd::prelude::*;

verus! {

/// Every failure of the protocol logic. Each value is terminal for the
/// ceremony or signing attempt in progress: callers restart a fresh
/// instance rather than retry, since partial progress with reused secret
/// or nonce material is unsafe.
#[derive(Clone, Copy, Debug, PartialEq, Eq, Structural)]
pub enum SchnorrError {
    /// Mismatched array sizes across signer, commitment or share lists.
    InvalidLength,
    /// Malformed point bytes: bad length or unknown prefix byte.
    InvalidPublicKeyEncoding,
    /// Well-formed encoding, but the bytes are not a curve point.
    InvalidPoint,
    /// A scalar too large for the fixed 32-byte encoding.
    Overflow,
    /// The Feldman share check failed.
    InvalidShare,
    /// A revealed value does not match the digest committed earlier.
    CommitmentMismatch,
    /// A sharing's first commitment does not match the claimed public key.
    CommitmentBindingFailure,
    /// A party cannot locate its own key in the broadcast signer list.
    IndexNotFound,
    /// Fewer than t + 1 shares supplied to reconstruction.
    InsufficientShares,
    /// A signer's published signature share failed the public check.
    InvalidSignatureShare,
    /// Structural parameters disagree (thresholds, counts, duplicates).
    InvalidParameters,
    /// A sum over an empty sequence of points was requested.
    EmptyInput,
    /// Sharings of unequal (threshold, share count) shape were combined.
    ShapeMismatch,
}

} // verus!
