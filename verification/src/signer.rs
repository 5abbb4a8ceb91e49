//! Threshold signing and verification.
//!
//! Each signer computes a local signature share from its long-term and
//! ephemeral shares; any `t + 1` shares combine, after a public per-signer
//! check against the homomorphically combined commitments, into the group
//! signature `sigma`, verified against the aggregate public keys `Y` and
//! `V`. A separate verifier handles non-threshold (n-of-n) aggregated
//! signatures.

use crate::curve;
use crate::curve::{
    hash_to_scalar_of, index_scalar, mul_g_of, point_add_of, point_mul_of, scalar_add_of,
    scalar_mul_of, scalar_of_be, Point, Scalar,
};
use crate::errors::SchnorrError;
use crate::point_codec;
use crate::point_codec::decode_point_spec;
use crate::vss;
use crate::vss::{
    col_sum_spec, commit_eval_spec, lagrange_sum, point_views, positions_of, scalar_views,
    VssScheme,
};
use vstd::prelude::*;

verus! {

/// The sum of the first `j` points.
pub open spec fn sum_points_spec(ps: Seq<Seq<u8>>, j: int) -> Seq<u8>
    decreases j,
{
    if j <= 1 {
        ps[0]
    } else {
        point_add_of(sum_points_spec(ps, j - 1), ps[j - 1])
    }
}

/// Sums a non-empty sequence of public points: the aggregate key `Y` of the
/// group, or the aggregate ephemeral key `V` of one signing session. The
/// set of summands must match exactly between signer and verifier.
#[verifier::loop_isolation(false)]
pub fn sum_public_points(signers: &Vec<Point>) -> (r: Result<Point, SchnorrError>)
    requires
        forall|i: int| 0 <= i < signers@.len() ==> signers@[i].wf(),
    ensures
        r is Ok <==> signers@.len() >= 1,
        r is Err ==> r->Err_0 == SchnorrError::EmptyInput,
        r is Ok ==> r->Ok_0.wf() && r->Ok_0@ == sum_points_spec(
            point_views(signers@),
            signers@.len() as int,
        ),
{
    if signers.len() < 1 {
        return Err(SchnorrError::EmptyInput);
    }
    let mut sum: Point = signers[0].clone();
    let mut i: usize = 1;
    while i < signers.len()
        invariant
            1 <= i <= signers@.len(),
            sum.wf(),
            sum@ == sum_points_spec(point_views(signers@), i as int),
        decreases signers@.len() - i,
    {
        sum = curve::point_add(&sum, &signers[i]);
        i = i + 1;
    }
    Ok(sum)
}

/// The challenge scalar of a signing session: the hash of the aggregate
/// ephemeral key `V`, the aggregate long-term key `Y` and the message.
pub open spec fn challenge_of(v: Seq<u8>, y: Seq<u8>, message: Seq<u8>) -> Seq<u8> {
    hash_to_scalar_of(v, y, message)
}

/// One signer's contribution: `e = H(V || Y || message)` and
/// `gamma = ephemeral share + e * long-term share`. `e` is identical across
/// honest signers; transmitting it allows early detection of disagreement.
pub fn compute_local_signature(
    share: &Scalar,
    eph_share: &Scalar,
    y: &Point,
    v: &Point,
    message: &Vec<u8>,
) -> (r: (Scalar, Scalar))
    requires
        share.wf(),
        eph_share.wf(),
        y.wf(),
        v.wf(),
    ensures
        r.0.wf() && r.1.wf(),
        r.0@ == challenge_of(v@, y@, message@),
        r.1@ == scalar_add_of(eph_share@, scalar_mul_of(r.0@, share@)),
{
    let vb = v.to_vec();
    let yb = y.to_vec();
    let e = curve::hash_to_scalar(&vb, &yb, message);
    let prod = curve::scalar_mul(&e, share);
    let gamma = curve::scalar_add(eph_share, &prod);
    (e, gamma)
}

/// Accepts exactly when `sigma * G == e * Y + V` with the challenge
/// recomputed from the same public inputs.
pub fn verify_threshold_signature(sigma: &Scalar, y: &Point, v: &Point, message: &Vec<u8>) -> (r:
    bool)
    requires
        sigma.wf(),
        y.wf(),
        v.wf(),
    ensures
        r == (mul_g_of(sigma@) == point_add_of(
            point_mul_of(y@, challenge_of(v@, y@, message@)),
            v@,
        )),
{
    let vb = v.to_vec();
    let yb = y.to_vec();
    let e = curve::hash_to_scalar(&vb, &yb, message);
    let ey = curve::point_mul(y, &e);
    let rhs = curve::point_add(&ey, v);
    let lhs = curve::mul_g(sigma);
    lhs.eq_point(&rhs)
}

/// The ordered structural checks of `sum_local_signature`; the first failed
/// check names the error returned.
pub open spec fn structure_error(
    t: usize,
    gammas: Seq<Scalar>,
    parties_index: Seq<usize>,
    vss_points: Seq<VssScheme>,
    eph_vss_points: Seq<VssScheme>,
) -> Option<SchnorrError> {
    if vss_points.len() == 0 || eph_vss_points.len() == 0 {
        Some(SchnorrError::EmptyInput)
    } else if gammas.len() != eph_vss_points[0].parameters.share_count {
        Some(SchnorrError::InvalidLength)
    } else if parties_index.len() != eph_vss_points[0].parameters.share_count {
        Some(SchnorrError::InvalidLength)
    } else if t != vss_points[0].parameters.threshold {
        Some(SchnorrError::InvalidParameters)
    } else if vss_points.len() != vss_points[0].parameters.share_count {
        Some(SchnorrError::InvalidLength)
    } else if t != eph_vss_points[0].parameters.threshold {
        Some(SchnorrError::InvalidParameters)
    } else if eph_vss_points.len() != eph_vss_points[0].parameters.share_count {
        Some(SchnorrError::InvalidLength)
    } else if gammas.len() < t + 1 {
        Some(SchnorrError::InsufficientShares)
    } else {
        None
    }
}

/// The challenge weight vector: `e` once per key-generation scheme.
pub open spec fn e_weights(e: Seq<u8>, n: int) -> Seq<Seq<u8>> {
    Seq::new(n as nat, |i: int| e)
}

/// Coefficient `k` of the combined commitment scheme: the sum of all
/// key-generation commitments scaled by `e`, plus all nonce commitments.
pub open spec fn combined_comm_at(
    vss_points: Seq<VssScheme>,
    eph_vss_points: Seq<VssScheme>,
    e: Seq<u8>,
    k: int,
) -> Seq<u8> {
    point_add_of(
        col_sum_spec(vss_points, Some(e_weights(e, vss_points.len() as int)), k, vss_points.len() as int),
        col_sum_spec(eph_vss_points, None, k, eph_vss_points.len() as int),
    )
}

/// The combined commitment vector of a signing session.
pub open spec fn combined_comms(
    vss_points: Seq<VssScheme>,
    eph_vss_points: Seq<VssScheme>,
    e: Seq<u8>,
    t: usize,
) -> Seq<Seq<u8>> {
    Seq::new((t + 1) as nat, |k: int| combined_comm_at(vss_points, eph_vss_points, e, k))
}

/// Signer `i`'s published `gamma` passes the public check against the
/// combined commitments at its shifted evaluation position.
pub open spec fn gamma_ok(
    comms: Seq<Seq<u8>>,
    gamma: Seq<u8>,
    position: usize,
) -> bool {
    mul_g_of(gamma) == commit_eval_spec(comms, index_scalar((position + 1) as u64))
}

/// Every scheme of the sequence has the same parameters as its first.
pub open spec fn uniform_params(schemes: Seq<VssScheme>) -> bool {
    forall|i: int|
        0 <= i < schemes.len() ==> #[trigger] schemes[i].parameters == schemes[0].parameters
}

/// Combines `m` signers' local signature shares into the group signature.
///
/// After the structural checks, the key-generation commitment vectors are
/// scaled by the challenge `e` and summed together with the nonce
/// commitment vectors; every signer's `gamma` is checked publicly against
/// the combined commitments at its position, so the group learns which
/// signer misbehaved before a reconstruction is attempted; the signature is
/// then Lagrange-reconstructed from the first `t + 1` shares.
#[verifier::loop_isolation(false)]
pub fn sum_local_signature(
    t: usize,
    e: &Scalar,
    gammas: &Vec<Scalar>,
    parties_index: &Vec<usize>,
    vss_points: &Vec<VssScheme>,
    eph_vss_points: &Vec<VssScheme>,
) -> (r: Result<Scalar, SchnorrError>)
    requires
        e.wf(),
        forall|i: int| 0 <= i < gammas@.len() ==> gammas@[i].wf(),
        forall|i: int| 0 <= i < vss_points@.len() ==> vss_points@[i].wf(),
        forall|i: int| 0 <= i < eph_vss_points@.len() ==> eph_vss_points@[i].wf(),
    ensures
        structure_error(t, gammas@, parties_index@, vss_points@, eph_vss_points@) matches Some(err)
            ==> r == Err::<Scalar, _>(err),
        r == Err::<Scalar, _>(SchnorrError::ShapeMismatch) ==> !(uniform_params(vss_points@)
            && uniform_params(eph_vss_points@)),
        r == Err::<Scalar, _>(SchnorrError::InvalidSignatureShare) ==> exists|i: int|
            0 <= i < gammas@.len() && parties_index@[i] < usize::MAX && !gamma_ok(
                combined_comms(vss_points@, eph_vss_points@, e@, t),
                #[trigger] gammas@[i]@,
                parties_index@[i],
            ),
        structure_error(t, gammas@, parties_index@, vss_points@, eph_vss_points@) is None
            && uniform_params(vss_points@) && uniform_params(eph_vss_points@) && (forall|i: int|
            0 <= i < parties_index@.len() ==> parties_index@[i] < usize::MAX) && (forall|i: int|
            0 <= i < gammas@.len() ==> gamma_ok(
                combined_comms(vss_points@, eph_vss_points@, e@, t),
                #[trigger] gammas@[i]@,
                parties_index@[i],
            )) && !vss::degenerate_positions(
            positions_of(parties_index@.take(t + 1).map_values(|p: usize| (p + 1) as usize)),
            t + 1,
        ) ==> r is Ok,
        r is Ok ==> structure_error(t, gammas@, parties_index@, vss_points@, eph_vss_points@)
            is None,
        r is Ok ==> uniform_params(vss_points@) && uniform_params(eph_vss_points@),
        r is Ok ==> (forall|i: int| 0 <= i < gammas@.len() ==> parties_index@[i] < usize::MAX),
        r is Ok ==> (forall|i: int|
            0 <= i < gammas@.len() ==> gamma_ok(
                combined_comms(vss_points@, eph_vss_points@, e@, t),
                #[trigger] gammas@[i]@,
                parties_index@[i],
            )),
        r is Ok ==> r->Ok_0.wf(),
        r is Ok ==> r->Ok_0@ == lagrange_sum(
            positions_of(parties_index@.take(t + 1).map_values(|p: usize| (p + 1) as usize)),
            scalar_views(gammas@.take(t + 1)),
            t + 1,
            t + 1,
        ),
{
    if vss_points.len() < 1 || eph_vss_points.len() < 1 {
        return Err(SchnorrError::EmptyInput);
    }
    let m = eph_vss_points[0].parameters.share_count;
    if gammas.len() != m {
        return Err(SchnorrError::InvalidLength);
    }
    if parties_index.len() != m {
        return Err(SchnorrError::InvalidLength);
    }
    if t != vss_points[0].parameters.threshold {
        return Err(SchnorrError::InvalidParameters);
    }
    if vss_points.len() != vss_points[0].parameters.share_count {
        return Err(SchnorrError::InvalidLength);
    }
    if t != eph_vss_points[0].parameters.threshold {
        return Err(SchnorrError::InvalidParameters);
    }
    if eph_vss_points.len() != eph_vss_points[0].parameters.share_count {
        return Err(SchnorrError::InvalidLength);
    }
    if gammas.len() < 1 || gammas.len() - 1 < t {
        return Err(SchnorrError::InsufficientShares);
    }
    // Scale the key-generation commitments by the challenge and add the
    // nonce commitments, coefficient by coefficient.
    let mut weights: Vec<Scalar> = Vec::new();
    let mut w: usize = 0;
    while w < vss_points.len()
        invariant
            w <= vss_points@.len(),
            weights@.len() == w,
            forall|i: int| 0 <= i < w ==> weights@[i].wf(),
            forall|i: int| 0 <= i < w ==> weights@[i]@ == e@,
        decreases vss_points@.len() - w,
    {
        weights.push(e.clone());
        w = w + 1;
    }
    proof {
        assert(scalar_views(weights@) =~= e_weights(e@, vss_points@.len() as int));
    }
    let combined_keys = match vss::combine(vss_points, Some(&weights)) {
        Ok(c) => c,
        Err(_) => {
            return Err(SchnorrError::ShapeMismatch);
        },
    };
    let combined_eph = match vss::combine(eph_vss_points, None) {
        Ok(c) => c,
        Err(_) => {
            return Err(SchnorrError::ShapeMismatch);
        },
    };
    let tp1 = combined_keys.commitments.len();
    proof {
        assert(tp1 == t + 1);
        assert(combined_eph.commitments@.len() == t + 1);
    }
    let mut comms: Vec<Point> = Vec::new();
    let mut k: usize = 0;
    while k < tp1
        invariant
            k <= tp1,
            comms@.len() == k,
            forall|i: int| 0 <= i < k ==> comms@[i].wf(),
            forall|i: int|
                0 <= i < k ==> comms@[i]@ == combined_comm_at(
                    vss_points@,
                    eph_vss_points@,
                    e@,
                    i,
                ),
        decreases tp1 - k,
    {
        proof {
            assert(combined_keys.comms()[k as int] == combined_keys.commitments@[k as int]@);
            assert(combined_eph.comms()[k as int] == combined_eph.commitments@[k as int]@);
            assert(combined_keys.comms()[k as int] == col_sum_spec(
                vss_points@,
                vss::weights_view(Some(&weights)),
                k as int,
                vss_points@.len() as int,
            ));
            assert(vss::weights_view(Some(&weights)) == Some(e_weights(
                e@,
                vss_points@.len() as int,
            )));
            assert(combined_eph.comms()[k as int] == col_sum_spec(
                eph_vss_points@,
                vss::weights_view(None),
                k as int,
                eph_vss_points@.len() as int,
            ));
        }
        comms.push(curve::point_add(&combined_keys.commitments[k], &combined_eph.commitments[k]));
        k = k + 1;
    }
    let vss_sum = VssScheme {
        parameters: vss::ShareParams { threshold: t, share_count: m },
        commitments: comms,
    };
    proof {
        assert(vss_sum.comms() =~= combined_comms(vss_points@, eph_vss_points@, e@, t));
    }
    // Check every signer's share publicly before reconstructing.
    let mut i: usize = 0;
    while i < gammas.len()
        invariant
            i <= gammas@.len(),
            forall|x: int| 0 <= x < i ==> parties_index@[x] < usize::MAX,
            forall|x: int|
                0 <= x < i ==> gamma_ok(
                    combined_comms(vss_points@, eph_vss_points@, e@, t),
                    #[trigger] gammas@[x]@,
                    parties_index@[x],
                ),
        decreases gammas@.len() - i,
    {
        let position = parties_index[i];
        if position == usize::MAX {
            return Err(SchnorrError::InvalidParameters);
        }
        let gamma_g = curve::mul_g(&gammas[i]);
        let expected = vss::evaluate_commitment_at(&vss_sum, position + 1);
        if !gamma_g.eq_point(&expected) {
            proof {
                assert(!gamma_ok(
                    combined_comms(vss_points@, eph_vss_points@, e@, t),
                    gammas@[i as int]@,
                    parties_index@[i as int],
                ));
            }
            return Err(SchnorrError::InvalidSignatureShare);
        }
        i = i + 1;
    }
    // Reconstruct sigma from the first t + 1 shares.
    let mut rec_idx: Vec<usize> = Vec::new();
    let mut rec_gamma: Vec<Scalar> = Vec::new();
    let mut j: usize = 0;
    while j < t + 1
        invariant
            j <= t + 1,
            t + 1 <= gammas@.len(),
            rec_idx@.len() == j,
            rec_gamma@.len() == j,
            forall|x: int| 0 <= x < j ==> rec_gamma@[x].wf(),
            forall|x: int| 0 <= x < j ==> rec_idx@[x] == parties_index@[x] + 1,
            forall|x: int| 0 <= x < j ==> rec_gamma@[x]@ == gammas@[x]@,
        decreases t + 1 - j,
    {
        rec_idx.push(parties_index[j] + 1);
        rec_gamma.push(gammas[j].clone());
        j = j + 1;
    }
    proof {
        assert(rec_idx@ =~= parties_index@.take(t + 1).map_values(|p: usize| (p + 1) as usize));
        assert(scalar_views(rec_gamma@) =~= scalar_views(gammas@.take(t + 1)));
    }
    match vss::reconstruct(&vss_sum, &rec_idx, &rec_gamma) {
        Ok(sigma) => Ok(sigma),
        Err(_) => Err(SchnorrError::InvalidParameters),
    }
}

/// Whether an aggregate signature verifies: `sigma * G == e * APK` with
/// `e = H(R || apk bytes || message)`, the public key hashed in its tagged
/// compressed form when the tag is set and in its standard compressed form
/// when not.
pub open spec fn aggregate_accepts(
    sigma_be: Seq<u8>,
    r_bytes: Seq<u8>,
    apk: Seq<u8>,
    message: Seq<u8>,
    tagged: bool,
) -> bool {
    let apk_hashed = if tagged {
        apk.update(0, (apk[0] + 3) as u8)
    } else {
        apk
    };
    mul_g_of(scalar_of_be(sigma_be)) == point_mul_of(
        apk,
        hash_to_scalar_of(r_bytes, apk_hashed, message),
    )
}

/// Verifies a non-threshold (n-of-n) aggregated signature. Whether the
/// public key uses the tagged encoding is taken from the caller when
/// stated, and inferred from the key's prefix byte when not; the key bytes
/// must decode to a point, and a tagged key must not be the neutral
/// element.
pub fn verify_aggregate_sign(
    sigma: &Vec<u8>,
    big_r: &Vec<u8>,
    apk: &Vec<u8>,
    message: &Vec<u8>,
    is_tagged: Option<bool>,
) -> (r: Result<bool, SchnorrError>)
    ensures
        r matches Ok(accepted) ==> {
            let tagged = match is_tagged {
                Some(b) => b,
                None => point_codec::tag_of(apk@),
            };
            &&& decode_point_spec(apk@) matches Ok(dp) && accepted == aggregate_accepts(
                sigma@,
                big_r@,
                dp.1,
                message@,
                tagged,
            )
        },
        decode_point_spec(apk@) matches Err(e) ==> r == Err::<bool, _>(e),
        decode_point_spec(apk@) matches Ok(dp) && (dp.1[0] == 2 || dp.1[0] == 3) ==> r is Ok,
{
    let tagged = match is_tagged {
        Some(b) => b,
        None => {
            let (tg, _prefix) = point_codec::decode_public_bytes(apk)?;
            tg
        },
    };
    let (_, point) = point_codec::bytes2point(apk)?;
    let apk_hashed = match point_codec::encode_point_compressed(&point, tagged) {
        Ok(b) => b,
        Err(e) => {
            return Err(e);
        },
    };
    let e = curve::hash_to_scalar(big_r, &apk_hashed, message);
    let s = curve::scalar_from_be(sigma);
    let lhs = curve::mul_g(&s);
    let rhs = curve::point_mul(&point, &e);
    Ok(lhs.eq_point(&rhs))
}

} // verus!
