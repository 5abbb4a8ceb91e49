use multi_party_schnorr::ceremony::{verify_reveals, ThresholdKey};
use multi_party_schnorr::commitment::{commit, commit_with_randomness, verify_commitment};
use multi_party_schnorr::curve::{derive_keypair, scalar_from_be, Point, Scalar};
use multi_party_schnorr::errors::SchnorrError;
use multi_party_schnorr::interpolate::reconstruct_mod;
use multi_party_schnorr::signer::{
    compute_local_signature, sum_local_signature, sum_public_points, verify_aggregate_sign,
    verify_threshold_signature,
};
use multi_party_schnorr::vss::{combine, reconstruct, share_at, validate_share, VssScheme};

fn scalar_u8(v: u8) -> Scalar {
    scalar_from_be(&vec![v])
}

#[test]
fn toy_lagrange_reconstruction() {
    // f(x) = 7 + 4x over Z_17: f(1) = 11, f(2) = 15, f(3) = 2.
    assert_eq!(reconstruct_mod(17, &vec![1, 2], &vec![11, 15]), Some(7));
    assert_eq!(reconstruct_mod(17, &vec![1, 3], &vec![11, 2]), Some(7));
    assert_eq!(reconstruct_mod(17, &vec![2, 3], &vec![15, 2]), Some(7));
}

#[test]
fn toy_lagrange_three_points() {
    // All three shares of the same polynomial also recover the secret.
    assert_eq!(reconstruct_mod(17, &vec![1, 2, 3], &vec![11, 15, 2]), Some(7));
}

#[test]
fn toy_lagrange_rejects_duplicates() {
    assert_eq!(reconstruct_mod(17, &vec![1, 1], &vec![11, 11]), None);
}

#[test]
fn toy_lagrange_rejects_non_invertible() {
    // Modulo 8, the difference 3 - 1 = 2 has no inverse.
    assert_eq!(reconstruct_mod(8, &vec![1, 3], &vec![1, 1]), None);
}

#[test]
fn commitment_accepts_own_reveal() {
    let kp = derive_keypair(&vec![5u8]);
    let c = commit(&kp.public);
    assert!(verify_commitment(&kp.public, &c.blinding_factor, &c.digest));
}

#[test]
fn commitment_rejects_alterations() {
    let kp = derive_keypair(&vec![5u8]);
    let other = derive_keypair(&vec![6u8]);
    let c = commit(&kp.public);
    let mut bad_blind = c.blinding_factor.clone();
    bad_blind[0] ^= 1;
    let mut bad_digest = c.digest.clone();
    bad_digest[31] ^= 1;
    assert!(!verify_commitment(&kp.public, &bad_blind, &c.digest));
    assert!(!verify_commitment(&kp.public, &c.blinding_factor, &bad_digest));
    assert!(!verify_commitment(&other.public, &c.blinding_factor, &c.digest));
}

#[test]
fn commitment_deterministic_under_same_randomness() {
    let kp = derive_keypair(&vec![5u8]);
    let blind = vec![9u8; 32];
    assert_eq!(
        commit_with_randomness(&kp.public, &blind),
        commit_with_randomness(&kp.public, &blind)
    );
}

#[test]
fn shares_validate_and_flipped_bits_fail() {
    let secret = scalar_u8(99);
    let indices = vec![1usize, 2, 3];
    let (scheme, shares) = share_at(1, 3, &secret, &indices).unwrap();
    for (k, share) in shares.iter().enumerate() {
        assert!(validate_share(&scheme, share, indices[k]));
        // Flip one bit of the share: the Feldman check must reject it.
        let mut bytes = share.to_vec();
        bytes[17] ^= 0x10;
        let corrupted = scalar_from_be(&bytes);
        assert!(!validate_share(&scheme, &corrupted, indices[k]));
        // A valid share fails at the wrong index.
        assert!(!validate_share(&scheme, share, indices[k] + 7));
    }
}

#[test]
fn share_at_rejects_wrong_index_count() {
    let secret = scalar_u8(1);
    assert!(matches!(
        share_at(1, 3, &secret, &vec![1, 2]),
        Err(SchnorrError::InvalidLength)
    ));
}

#[test]
fn reconstruct_recovers_secret() {
    let secret = scalar_u8(123);
    let indices = vec![1usize, 2, 3];
    let (scheme, shares) = share_at(1, 3, &secret, &indices).unwrap();
    for pick in [[0usize, 1], [0, 2], [1, 2]] {
        let idx = vec![indices[pick[0]], indices[pick[1]]];
        let vals = vec![shares[pick[0]].clone(), shares[pick[1]].clone()];
        let rec = reconstruct(&scheme, &idx, &vals).unwrap();
        assert_eq!(rec.to_vec(), secret.to_vec());
    }
}

#[test]
fn reconstruct_rejects_wrong_share_counts() {
    let secret = scalar_u8(3);
    let indices = vec![1usize, 2, 3];
    let (scheme, shares) = share_at(1, 3, &secret, &indices).unwrap();
    assert!(matches!(
        reconstruct(&scheme, &vec![1], &vec![shares[0].clone()]),
        Err(SchnorrError::InsufficientShares)
    ));
    assert!(matches!(
        reconstruct(&scheme, &indices, &shares),
        Err(SchnorrError::InvalidLength)
    ));
    assert!(matches!(
        reconstruct(&scheme, &vec![1, 2], &shares),
        Err(SchnorrError::InvalidLength)
    ));
    assert!(matches!(
        reconstruct(
            &scheme,
            &vec![1, 1],
            &vec![shares[0].clone(), shares[0].clone()]
        ),
        Err(SchnorrError::InvalidParameters)
    ));
}

#[test]
fn combine_checks_shapes() {
    let s1 = scalar_u8(1);
    let s2 = scalar_u8(2);
    let (a, _) = share_at(1, 3, &s1, &vec![1, 2, 3]).unwrap();
    let (b, _) = share_at(1, 3, &s2, &vec![1, 2, 3]).unwrap();
    let (c, _) = share_at(2, 3, &s2, &vec![1, 2, 3]).unwrap();
    assert!(combine(&vec![a, b], None).is_ok());
    let (a2, _) = share_at(1, 3, &s1, &vec![1, 2, 3]).unwrap();
    assert!(matches!(
        combine(&vec![a2, c], None),
        Err(SchnorrError::ShapeMismatch)
    ));
    assert!(matches!(
        combine(&Vec::new(), None),
        Err(SchnorrError::EmptyInput)
    ));
    let (a3, _) = share_at(1, 3, &s1, &vec![1, 2, 3]).unwrap();
    assert!(matches!(
        combine(&vec![a3], Some(&vec![s1.clone(), s2.clone()])),
        Err(SchnorrError::InvalidLength)
    ));
}

#[test]
fn vss_scheme_new_checks_commitment_count() {
    let secret = scalar_u8(4);
    let (scheme, _) = share_at(1, 3, &secret, &vec![1, 2, 3]).unwrap();
    let comms: Vec<Point> = scheme.commitments.iter().map(|p| p.clone()).collect();
    assert!(VssScheme::new(1, 3, comms).is_ok());
    let comms2: Vec<Point> = scheme.commitments.iter().map(|p| p.clone()).collect();
    assert!(matches!(
        VssScheme::new(2, 3, comms2),
        Err(SchnorrError::InvalidLength)
    ));
}

#[test]
fn sum_points_rejects_empty_and_ignores_order() {
    assert!(matches!(
        sum_public_points(&Vec::new()),
        Err(SchnorrError::EmptyInput)
    ));
    let p = derive_keypair(&vec![11u8]).public;
    let q = derive_keypair(&vec![12u8]).public;
    let one = sum_public_points(&vec![p.clone()]).unwrap();
    assert!(one.eq_point(&p));
    let pq = sum_public_points(&vec![p.clone(), q.clone()]).unwrap();
    let qp = sum_public_points(&vec![q, p]).unwrap();
    assert!(pq.eq_point(&qp));
}

#[test]
fn doubling_generator_matches_known_point() {
    let g = derive_keypair(&vec![1u8]).public;
    let two_g = sum_public_points(&vec![g.clone(), g]).unwrap();
    let expected = derive_keypair(&vec![2u8]).public;
    assert!(two_g.eq_point(&expected));
}

struct Party {
    key: ThresholdKey,
    scheme: VssScheme,
    shares: Vec<Scalar>,
}

/// Runs one full commit-reveal-share ceremony among `n` fresh parties with
/// threshold `t`; returns each party's combined share, the broadcast public
/// keys, and each party's commitment scheme.
fn run_ceremony(t: usize, n: usize) -> (Vec<Scalar>, Vec<Point>, Vec<VssScheme>) {
    let keys: Vec<ThresholdKey> = (0..n)
        .map(|_| ThresholdKey::generate(t, n, None).unwrap())
        .collect();
    let pubs: Vec<Point> = keys.iter().map(|k| k.keypair.public.clone()).collect();
    // Round one and two: commit, then reveal and mutually verify.
    let commitments: Vec<_> = keys.iter().map(|k| k.get_commitment()).collect();
    let blinds: Vec<Vec<u8>> = commitments.iter().map(|c| c.blinding_factor.clone()).collect();
    let digests: Vec<Vec<u8>> = commitments.iter().map(|c| c.digest.clone()).collect();
    verify_reveals(&pubs, &blinds, &digests).unwrap();
    // Round three: every party deals a sharing of its secret.
    let parties: Vec<Party> = keys
        .into_iter()
        .map(|key| {
            let (scheme, shares) = key.get_variable_secret_sharing().unwrap();
            Party { key, scheme, shares }
        })
        .collect();
    let schemes: Vec<VssScheme> = parties
        .iter()
        .map(|p| VssScheme::new(t, n, p.scheme.commitments.iter().map(|c| c.clone()).collect()).unwrap())
        .collect();
    let share_rows: Vec<Vec<Scalar>> = parties
        .iter()
        .map(|p| p.shares.iter().map(|s| s.clone()).collect())
        .collect();
    // Rounds four and five: every party validates and combines.
    let mut combined: Vec<Scalar> = Vec::new();
    for p in &parties {
        let outcome = p.key.keygen_t_n_parties(&pubs, &schemes, &share_rows).unwrap();
        combined.push(outcome.combined_share);
    }
    (combined, pubs, schemes)
}

#[test]
fn two_of_three_threshold_signing() {
    let message = b"threshold schnorr".to_vec();
    let t = 1usize;
    let n = 3usize;
    // Long-term key ceremony and a fresh single-use nonce ceremony.
    let (key_shares, key_pubs, key_schemes) = run_ceremony(t, n);
    let (eph_shares, eph_pubs, eph_schemes) = run_ceremony(t, n);
    let y = sum_public_points(&key_pubs).unwrap();
    let v = sum_public_points(&eph_pubs).unwrap();
    // Each signer publishes its local signature share.
    let mut e0: Option<Scalar> = None;
    let mut gammas: Vec<Scalar> = Vec::new();
    for i in 0..n {
        let (e, gamma) = compute_local_signature(&key_shares[i], &eph_shares[i], &y, &v, &message);
        if let Some(prev) = &e0 {
            assert_eq!(prev.to_vec(), e.to_vec());
        }
        e0 = Some(e);
        gammas.push(gamma);
    }
    let e = e0.unwrap();
    // Any two of the three signers produce the same accepted signature.
    let mut sigmas: Vec<Vec<u8>> = Vec::new();
    for order in [[0usize, 1, 2], [1, 2, 0], [2, 0, 1]] {
        let g: Vec<Scalar> = order.iter().map(|&i| gammas[i].clone()).collect();
        let idx: Vec<usize> = order.to_vec();
        let key_s: Vec<VssScheme> = key_schemes
            .iter()
            .map(|s| VssScheme::new(t, n, s.commitments.iter().map(|c| c.clone()).collect()).unwrap())
            .collect();
        let eph_s: Vec<VssScheme> = eph_schemes
            .iter()
            .map(|s| VssScheme::new(t, n, s.commitments.iter().map(|c| c.clone()).collect()).unwrap())
            .collect();
        let sigma = sum_local_signature(t, &e, &g, &idx, &key_s, &eph_s).unwrap();
        assert!(verify_threshold_signature(&sigma, &y, &v, &message));
        assert!(!verify_threshold_signature(&sigma, &y, &v, &b"other message".to_vec()));
        sigmas.push(sigma.to_vec());
    }
    assert_eq!(sigmas[0], sigmas[1]);
    assert_eq!(sigmas[1], sigmas[2]);
}

#[test]
fn corrupted_gamma_is_detected() {
    let message = b"abort on bad share".to_vec();
    let t = 1usize;
    let n = 3usize;
    let (key_shares, key_pubs, key_schemes) = run_ceremony(t, n);
    let (eph_shares, eph_pubs, eph_schemes) = run_ceremony(t, n);
    let y = sum_public_points(&key_pubs).unwrap();
    let v = sum_public_points(&eph_pubs).unwrap();
    let mut gammas: Vec<Scalar> = Vec::new();
    let mut e0: Option<Scalar> = None;
    for i in 0..n {
        let (e, gamma) = compute_local_signature(&key_shares[i], &eph_shares[i], &y, &v, &message);
        e0 = Some(e);
        gammas.push(gamma);
    }
    let mut bytes = gammas[1].to_vec();
    bytes[3] ^= 4;
    gammas[1] = scalar_from_be(&bytes);
    let r = sum_local_signature(
        t,
        &e0.unwrap(),
        &gammas,
        &vec![0, 1, 2],
        &key_schemes,
        &eph_schemes,
    );
    assert!(matches!(r, Err(SchnorrError::InvalidSignatureShare)));
}

#[test]
fn equivocation_aborts_ceremony() {
    // One party reveals a key that does not match its earlier digest:
    // every other party's reveal check fails with CommitmentMismatch.
    let keys: Vec<ThresholdKey> = (0..3)
        .map(|_| ThresholdKey::generate(1, 3, None).unwrap())
        .collect();
    let pubs: Vec<Point> = keys.iter().map(|k| k.keypair.public.clone()).collect();
    let commitments: Vec<_> = keys.iter().map(|k| k.get_commitment()).collect();
    let blinds: Vec<Vec<u8>> = commitments.iter().map(|c| c.blinding_factor.clone()).collect();
    let mut digests: Vec<Vec<u8>> = commitments.iter().map(|c| c.digest.clone()).collect();
    digests[2][5] ^= 1;
    assert!(matches!(
        verify_reveals(&pubs, &blinds, &digests),
        Err(SchnorrError::CommitmentMismatch)
    ));
}

#[test]
fn ceremony_rejects_foreign_public_key() {
    // A stranger who is not in the broadcast list cannot finalize.
    let keys: Vec<ThresholdKey> = (0..3)
        .map(|_| ThresholdKey::generate(1, 3, None).unwrap())
        .collect();
    let pubs: Vec<Point> = keys.iter().map(|k| k.keypair.public.clone()).collect();
    let parties: Vec<(VssScheme, Vec<Scalar>)> = keys
        .iter()
        .map(|k| k.get_variable_secret_sharing().unwrap())
        .collect();
    let schemes: Vec<VssScheme> = parties
        .iter()
        .map(|(s, _)| VssScheme::new(1, 3, s.commitments.iter().map(|c| c.clone()).collect()).unwrap())
        .collect();
    let rows: Vec<Vec<Scalar>> = parties
        .iter()
        .map(|(_, sh)| sh.iter().map(|s| s.clone()).collect())
        .collect();
    let stranger = ThresholdKey::generate(1, 3, None).unwrap();
    assert!(matches!(
        stranger.keygen_t_n_parties(&pubs, &schemes, &rows),
        Err(SchnorrError::IndexNotFound)
    ));
}

#[test]
fn ceremony_rejects_unbound_commitments() {
    // A dealer whose commitment vector is not bound to its broadcast key is
    // caught by the binding check.
    let keys: Vec<ThresholdKey> = (0..3)
        .map(|_| ThresholdKey::generate(1, 3, None).unwrap())
        .collect();
    let mut pubs: Vec<Point> = keys.iter().map(|k| k.keypair.public.clone()).collect();
    let parties: Vec<(VssScheme, Vec<Scalar>)> = keys
        .iter()
        .map(|k| k.get_variable_secret_sharing().unwrap())
        .collect();
    let schemes: Vec<VssScheme> = parties
        .iter()
        .map(|(s, _)| VssScheme::new(1, 3, s.commitments.iter().map(|c| c.clone()).collect()).unwrap())
        .collect();
    let rows: Vec<Vec<Scalar>> = parties
        .iter()
        .map(|(_, sh)| sh.iter().map(|s| s.clone()).collect())
        .collect();
    // Party 1 broadcasts a different key than the one its sharing binds.
    pubs[1] = derive_keypair(&vec![77u8]).public;
    let r = keys[0].keygen_t_n_parties(&pubs, &schemes, &rows);
    assert!(matches!(r, Err(SchnorrError::CommitmentBindingFailure)));
}

#[test]
fn aggregate_signature_verifies() {
    // A single-signer aggregate: apk = s * G, e = H(R || apk || m),
    // sigma = e * s, so sigma * G == e * apk.
    let secret = vec![123u8, 45];
    let kp = derive_keypair(&secret);
    let r_point = derive_keypair(&vec![200u8]).public;
    let message = b"aggregate".to_vec();
    let zero = scalar_from_be(&vec![0u8]);
    let s = scalar_from_be(&secret);
    // gamma = 0 + e * s with e = H(R || Y || m).
    let (_, sigma) = compute_local_signature(&s, &zero, &kp.public, &r_point, &message);
    let accepted = verify_aggregate_sign(
        &sigma.to_vec(),
        &r_point.to_vec(),
        &kp.public.to_vec(),
        &message,
        Some(false),
    )
    .unwrap();
    assert!(accepted);
    let rejected = verify_aggregate_sign(
        &sigma.to_vec(),
        &r_point.to_vec(),
        &kp.public.to_vec(),
        &b"tampered".to_vec(),
        Some(false),
    )
    .unwrap();
    assert!(!rejected);
}

#[test]
fn aggregate_signature_infers_tag_from_prefix() {
    let kp = derive_keypair(&vec![9u8, 9]);
    let message = b"tag inference".to_vec();
    let mut tagged = kp.public.to_vec();
    tagged[0] += 3;
    // With a tagged key the flag is inferred; a bad prefix is rejected.
    let r = verify_aggregate_sign(
        &vec![1u8],
        &vec![2u8; 32],
        &tagged,
        &message,
        None,
    );
    assert!(r.is_ok());
    let bad = vec![9u8; 33];
    assert!(matches!(
        verify_aggregate_sign(&vec![1u8], &vec![2u8; 32], &bad, &message, None),
        Err(SchnorrError::InvalidPublicKeyEncoding)
    ));
}

#[test]
fn sum_local_signature_checks_structure() {
    let secret = scalar_u8(1);
    let e = scalar_u8(2);
    let (scheme, _) = share_at(1, 3, &secret, &vec![1, 2, 3]).unwrap();
    let gammas = vec![scalar_u8(1), scalar_u8(2), scalar_u8(3)];
    assert!(matches!(
        sum_local_signature(1, &e, &gammas, &vec![0, 1, 2], &Vec::new(), &vec![scheme]),
        Err(SchnorrError::EmptyInput)
    ));
    let (k1, _) = share_at(1, 3, &secret, &vec![1, 2, 3]).unwrap();
    let (e1, _) = share_at(1, 3, &secret, &vec![1, 2, 3]).unwrap();
    assert!(matches!(
        sum_local_signature(1, &e, &vec![scalar_u8(1)], &vec![0, 1, 2], &vec![k1], &vec![e1]),
        Err(SchnorrError::InvalidLength)
    ));
    let (k2, _) = share_at(1, 3, &secret, &vec![1, 2, 3]).unwrap();
    let (e2, _) = share_at(1, 3, &secret, &vec![1, 2, 3]).unwrap();
    assert!(matches!(
        sum_local_signature(2, &e, &gammas, &vec![0, 1, 2], &vec![k2], &vec![e2]),
        Err(SchnorrError::InvalidParameters)
    ));
}

#[test]
fn ceremony_with_custom_indices() {
    let custom = vec![4usize, 9, 14];
    let key = ThresholdKey::generate(1, 3, Some(&custom)).unwrap();
    // Supplied zero-based indices become one-based evaluation positions.
    assert_eq!(key.parties_index, vec![5, 10, 15]);
    assert!(matches!(
        ThresholdKey::generate(1, 3, Some(&vec![1, 2])),
        Err(SchnorrError::InvalidLength)
    ));
}

#[test]
fn restored_identity_keeps_its_index() {
    let key = ThresholdKey::from_secret_key(1, 3, &vec![42u8], 2, None).unwrap();
    assert_eq!(key.my_index, Some(2));
    let expected = derive_keypair(&vec![42u8]);
    assert!(key.keypair.public.eq_point(&expected.public));
}
