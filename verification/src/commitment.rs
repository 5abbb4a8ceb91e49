//! Hiding commitments to curve points.
//!
//! Before a party reveals a public value it broadcasts a hash commitment to
//! it, so that no party can choose its contribution as a function of the
//! others' contributions. The digest is `H(point bytes || blinding factor)`
//! over a 256-bit blinding value; `verify` recomputes and compares.

use crate::curve;
use crate::curve::{commit_digest_of, Point};
use vstd::prelude::*;

verus! {

/// What it means for a reveal to match a digest.
pub open spec fn commitment_accepts(p: Seq<u8>, blind: Seq<u8>, digest: Seq<u8>) -> bool {
    digest == commit_digest_of(p, blind)
}

/// A blinding factor together with the digest it produced.
pub struct BlindCommitment {
    pub blinding_factor: Vec<u8>,
    pub digest: Vec<u8>,
}

/// The commitment digest for a point under caller-supplied randomness; the
/// same inputs always give the same digest.
pub fn commit_with_randomness(point: &Point, blind: &Vec<u8>) -> (r: Vec<u8>)
    requires
        point.wf(),
    ensures
        r@ == commit_digest_of(point@, blind@),
        r@.len() == 32,
{
    let bytes = point.to_vec();
    curve::hash_commit(&bytes, blind)
}

/// Commits to a point under a freshly sampled 256-bit blinding factor. The
/// digest accepted by `verify_commitment` for this point and this blinding
/// factor is exactly the digest returned.
pub fn commit(point: &Point) -> (r: BlindCommitment)
    requires
        point.wf(),
    ensures
        r.blinding_factor@.len() == 32,
        r.digest@.len() == 32,
        commitment_accepts(point@, r.blinding_factor@, r.digest@),
{
    let blinding_factor = curve::sample_blind();
    let digest = commit_with_randomness(point, &blinding_factor);
    BlindCommitment { blinding_factor, digest }
}

/// Recomputes the digest for `(point, blind)` and compares: accepts exactly
/// the digests that `commit` produces for this point and blinding factor.
pub fn verify_commitment(point: &Point, blind: &Vec<u8>, digest: &Vec<u8>) -> (r: bool)
    requires
        point.wf(),
    ensures
        r == commitment_accepts(point@, blind@, digest@),
{
    let d = commit_with_randomness(point, blind);
    curve::bytes_eq(digest, &d)
}

/// Law: the digest `commit` produces for a point under a blinding factor
/// is exactly the digest `verify_commitment` accepts for that point and
/// blinding factor. (The converse — rejection of any altered triple — is
/// collision resistance of the hash and is not provable here.)
pub proof fn lemma_commit_then_verify(p: Seq<u8>, blind: Seq<u8>)
    ensures
        commitment_accepts(p, blind, commit_digest_of(p, blind)),
{
}

} // verus!
