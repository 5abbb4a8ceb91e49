//! The key-generation ceremony.
//!
//! Run once per party, the ceremony turns `n` individual secrets into one
//! `(t, n)`-shared secret: each party commits to its public key, reveals it,
//! deals a verifiable sharing of its secret, and finally validates every
//! share it received and sums them into its combined share `x_i`. The same
//! rounds, run among the signing subset, produce a single-use ephemeral
//! nonce share; an ephemeral identity must be discarded after one signing
//! session. Any single failed check aborts the whole ceremony: partial
//! acceptance would let an attacker bias the resulting key.

use crate::commitment;
use crate::commitment::{commitment_accepts, BlindCommitment};
use crate::curve;
use crate::curve::{index_scalar, mul_g_of, scalar_add_of, scalar_of_be, KeyPair, Point, Scalar};
use crate::errors::SchnorrError;
use crate::vss;
use crate::vss::{commit_eval_spec, scalar_views, share_at_post, VssScheme};
use vstd::prelude::*;

verus! {

/// The views of a sequence of points.
pub open spec fn point_views(v: Seq<Point>) -> Seq<Seq<u8>> {
    v.map_values(|p: Point| p@)
}

/// The views of a sequence of byte vectors.
pub open spec fn byte_views(v: Seq<Vec<u8>>) -> Seq<Seq<u8>> {
    v.map_values(|b: Vec<u8>| b@)
}

/// A party's long-term identity in one ceremony: its key pair, its position
/// (unknown until it finds its key in the broadcast list), the evaluation
/// indices of all parties, and the sharing shape.
pub struct ThresholdKey {
    pub keypair: KeyPair,
    pub my_index: Option<usize>,
    pub parties_index: Vec<usize>,
    pub t: usize,
    pub n: usize,
}

impl ThresholdKey {
    /// A valid identity: a consistent key pair and one evaluation index per
    /// party.
    pub open spec fn wf(&self) -> bool {
        &&& self.keypair.wf()
        &&& self.parties_index@.len() == self.n
    }
}

/// Turns an optional zero-based index list into the `n` one-based
/// evaluation positions: the default assignment `1..=n`, or each supplied
/// index plus one.
#[verifier::loop_isolation(false)]
pub fn option_list2parties_index(n: usize, parties_index: Option<&Vec<usize>>) -> (r: Result<
    Vec<usize>,
    SchnorrError,
>)
    ensures
        parties_index is None ==> r is Ok && r->Ok_0@ =~= Seq::new(
            n as nat,
            |i: int| (i + 1) as usize,
        ),
        parties_index matches Some(l) && (exists|i: int|
            0 <= i < l@.len() && l@[i] == usize::MAX) ==> r == Err::<Vec<usize>, _>(
            SchnorrError::InvalidParameters,
        ),
        parties_index matches Some(l) && (forall|i: int|
            0 <= i < l@.len() ==> l@[i] < usize::MAX) && l@.len() != n ==> r == Err::<
            Vec<usize>,
            _,
        >(SchnorrError::InvalidLength),
        parties_index matches Some(l) ==> (r is Ok ==> l@.len() == n && r->Ok_0@.len() == n && (
        forall|i: int| 0 <= i < n ==> r->Ok_0@[i] == l@[i] + 1)),
        parties_index matches Some(l) && l@.len() == n && (forall|i: int|
            0 <= i < l@.len() ==> l@[i] < usize::MAX) ==> r is Ok,
{
    match parties_index {
        Some(list) => {
            let mut out: Vec<usize> = Vec::new();
            let mut i: usize = 0;
            while i < list.len()
                invariant
                    i <= list@.len(),
                    out@.len() == i,
                    forall|k: int| 0 <= k < i ==> list@[k] < usize::MAX,
                    forall|k: int| 0 <= k < i ==> out@[k] == list@[k] + 1,
                decreases list@.len() - i,
            {
                let v = list[i];
                if v == usize::MAX {
                    return Err(SchnorrError::InvalidParameters);
                }
                out.push(v + 1);
                i = i + 1;
            }
            if out.len() != n {
                return Err(SchnorrError::InvalidLength);
            }
            Ok(out)
        },
        None => {
            let mut out: Vec<usize> = Vec::new();
            let mut i: usize = 0;
            while i < n
                invariant
                    i <= n,
                    out@.len() == i,
                    forall|k: int| 0 <= k < i ==> out@[k] == k + 1,
                decreases n - i,
            {
                out.push(i + 1);
                i = i + 1;
            }
            proof {
                assert(out@ =~= Seq::new(n as nat, |i: int| (i + 1) as usize));
            }
            Ok(out)
        },
    }
}

impl ThresholdKey {
    /// A fresh identity with a random secret; the party's own index is
    /// unknown until the ceremony resolves it.
    pub fn generate(t: usize, n: usize, parties_index: Option<&Vec<usize>>) -> (r: Result<
        ThresholdKey,
        SchnorrError,
    >)
        ensures
            r is Ok ==> r->Ok_0.wf() && r->Ok_0.my_index is None && r->Ok_0.t == t && r->Ok_0.n
                == n,
            parties_index is None ==> r is Ok,
            parties_index matches Some(l) && l@.len() == n && (forall|i: int|
                0 <= i < l@.len() ==> l@[i] < usize::MAX) ==> r is Ok,
    {
        let parties = option_list2parties_index(n, parties_index)?;
        let keypair = curve::generate_keypair();
        Ok(ThresholdKey { keypair, my_index: None, parties_index: parties, t, n })
    }

    /// An identity restored from an existing secret with a known index.
    pub fn from_secret_key(
        t: usize,
        n: usize,
        secret: &Vec<u8>,
        my_index: usize,
        parties_index: Option<&Vec<usize>>,
    ) -> (r: Result<ThresholdKey, SchnorrError>)
        ensures
            r is Ok ==> r->Ok_0.wf() && r->Ok_0.my_index == Some(my_index) && r->Ok_0.t == t
                && r->Ok_0.n == n && r->Ok_0.keypair.secret@ == scalar_of_be(secret@),
            parties_index is None ==> r is Ok,
            parties_index matches Some(l) && l@.len() == n && (forall|i: int|
                0 <= i < l@.len() ==> l@[i] < usize::MAX) ==> r is Ok,
    {
        let parties = option_list2parties_index(n, parties_index)?;
        let keypair = curve::derive_keypair(secret);
        Ok(ThresholdKey { keypair, my_index: Some(my_index), parties_index: parties, t, n })
    }

    /// Round one: commit to the own public key under fresh randomness.
    pub fn get_commitment(&self) -> (r: BlindCommitment)
        requires
            self.wf(),
        ensures
            commitment_accepts(self.keypair.public@, r.blinding_factor@, r.digest@),
            r.blinding_factor@.len() == 32,
            r.digest@.len() == 32,
    {
        commitment::commit(&self.keypair.public)
    }

    /// Round three: deal a verifiable sharing of the own secret at the
    /// parties' indices.
    pub fn get_variable_secret_sharing(&self) -> (r: Result<
        (VssScheme, Vec<Scalar>),
        SchnorrError,
    >)
        requires
            self.wf(),
        ensures
            r is Ok,
            r is Ok ==> {
                &&& r->Ok_0.0.wf()
                &&& r->Ok_0.0.parameters == (vss::ShareParams {
                    threshold: self.t,
                    share_count: self.n,
                })
                &&& (forall|i: int| 0 <= i < r->Ok_0.1@.len() ==> r->Ok_0.1@[i].wf())
                &&& exists|coeffs: Seq<Seq<u8>>|
                    share_at_post(
                        coeffs,
                        self.t,
                        self.n,
                        self.keypair.secret@,
                        self.parties_index@,
                        r->Ok_0.0.comms(),
                        scalar_views(r->Ok_0.1@),
                    )
            },
    {
        vss::share_at(self.t, self.n, &self.keypair.secret, &self.parties_index)
    }
}

/// Whether every revealed `(public key, blinding factor)` pair matches the
/// digest its party committed to earlier.
pub open spec fn reveals_ok(pks: Seq<Seq<u8>>, blinds: Seq<Seq<u8>>, digests: Seq<Seq<u8>>) -> bool {
    forall|i: int|
        0 <= i < pks.len() ==> #[trigger] commitment_accepts(pks[i], blinds[i], digests[i])
}

/// Round two: mutual verification of all commitments. Every recipient
/// checks every party's revealed key and blinding factor against the digest
/// that party broadcast in round one; one mismatch is a fatal equivocation.
#[verifier::loop_isolation(false)]
pub fn verify_reveals(signers: &Vec<Point>, blinds: &Vec<Vec<u8>>, digests: &Vec<Vec<u8>>) -> (r:
    Result<(), SchnorrError>)
    requires
        forall|i: int| 0 <= i < signers@.len() ==> signers@[i].wf(),
    ensures
        signers@.len() != blinds@.len() || signers@.len() != digests@.len() ==> r == Err::<
            (),
            _,
        >(SchnorrError::InvalidLength),
        signers@.len() == blinds@.len() && signers@.len() == digests@.len() ==> {
            &&& (r is Ok <==> reveals_ok(
                point_views(signers@),
                byte_views(blinds@),
                byte_views(digests@),
            ))
            &&& (r is Err ==> r->Err_0 == SchnorrError::CommitmentMismatch)
        },
{
    if signers.len() != blinds.len() || signers.len() != digests.len() {
        return Err(SchnorrError::InvalidLength);
    }
    let mut i: usize = 0;
    while i < signers.len()
        invariant
            i <= signers@.len(),
            forall|k: int|
                0 <= k < i ==> #[trigger] commitment_accepts(
                    point_views(signers@)[k],
                    byte_views(blinds@)[k],
                    byte_views(digests@)[k],
                ),
        decreases signers@.len() - i,
    {
        if !commitment::verify_commitment(&signers[i], &blinds[i], &digests[i]) {
            proof {
                assert(!commitment_accepts(
                    point_views(signers@)[i as int],
                    byte_views(blinds@)[i as int],
                    byte_views(digests@)[i as int],
                ));
            }
            return Err(SchnorrError::CommitmentMismatch);
        }
        i = i + 1;
    }
    Ok(())
}

/// Law: one revealed key that does not match its party's earlier digest
/// makes the reveal round unacceptable — every honest party's
/// `verify_reveals` then returns `CommitmentMismatch` and no identity
/// reaches a finalized state.
pub proof fn lemma_equivocation_aborts(
    pks: Seq<Seq<u8>>,
    blinds: Seq<Seq<u8>>,
    digests: Seq<Seq<u8>>,
    i: int,
)
    requires
        0 <= i < pks.len(),
        !commitment_accepts(pks[i], blinds[i], digests[i]),
    ensures
        !reveals_ok(pks, blinds, digests),
{
}

/// The share dealt to position `my` by party `i`.
pub open spec fn row_share(rows: Seq<Vec<Scalar>>, i: int, my: int) -> Seq<u8> {
    rows[i]@[my]@
}

/// The sum of the first `j` shares dealt to position `my`.
pub open spec fn sum_shares(rows: Seq<Vec<Scalar>>, my: int, j: int) -> Seq<u8>
    decreases j,
{
    if j <= 1 {
        row_share(rows, 0, my)
    } else {
        scalar_add_of(sum_shares(rows, my, j - 1), row_share(rows, j - 1, my))
    }
}

/// Party `i`'s share for evaluation position `pos` passes the Feldman check
/// against party `i`'s broadcast commitments.
pub open spec fn share_ok(scheme: VssScheme, share: Seq<u8>, pos: usize) -> bool {
    mul_g_of(share) == commit_eval_spec(scheme.comms(), index_scalar(pos as u64))
}

/// Party `i`'s commitment vector is bound to its broadcast public key.
pub open spec fn binding_ok(scheme: VssScheme, pk: Seq<u8>) -> bool {
    scheme.comms().len() > 0 && scheme.comms()[0] == pk
}

impl ThresholdKey {
    /// The position this party resolves to: its known index, or the first
    /// broadcast key equal to its own.
    pub open spec fn index_resolves_to(&self, pks: Seq<Seq<u8>>, my: int) -> bool {
        match self.my_index {
            Some(i) => my == i && i < self.n,
            None => 0 <= my < pks.len() && pks[my] == self.keypair.public@ && (forall|j: int|
                0 <= j < my ==> pks[j] != self.keypair.public@),
        }
    }
}

/// The outcome of a completed ceremony: the party's resolved index and its
/// combined secret share `x_i`, a valid share of the sum of all parties'
/// secrets.
pub struct CeremonyOutcome {
    pub my_index: usize,
    pub combined_share: Scalar,
}

impl ThresholdKey {
    /// Rounds four and five: resolve the own index in the broadcast key
    /// list, check every received share against its dealer's commitments
    /// and every commitment vector against its dealer's key, and sum the
    /// received shares into the combined share `x_i`. Any single failure
    /// aborts; partial acceptance is never permitted.
    #[verifier::loop_isolation(false)]
    pub fn keygen_t_n_parties(
        &self,
        signers: &Vec<Point>,
        vss_schemes: &Vec<VssScheme>,
        share_rows: &Vec<Vec<Scalar>>,
    ) -> (r: Result<CeremonyOutcome, SchnorrError>)
        requires
            self.wf(),
            forall|i: int| 0 <= i < signers@.len() ==> signers@[i].wf(),
            forall|i: int| 0 <= i < vss_schemes@.len() ==> vss_schemes@[i].wf(),
            forall|i: int, j: int|
                0 <= i < share_rows@.len() && 0 <= j < share_rows@[i]@.len()
                    ==> share_rows@[i]@[j].wf(),
        ensures
            signers@.len() != self.n || vss_schemes@.len() != self.n || share_rows@.len() != self.n
                ==> r == Err::<CeremonyOutcome, _>(SchnorrError::InvalidLength),
            r is Ok ==> {
                let my = r->Ok_0.my_index as int;
                &&& 0 <= my < self.n
                &&& (self.my_index matches Some(i) ==> my == i)
                &&& (self.my_index is None ==> signers@[my]@ == self.keypair.public@ && (
                forall|j: int| 0 <= j < my ==> signers@[j]@ != self.keypair.public@))
                &&& (forall|i: int| 0 <= i < self.n ==> my < share_rows@[i]@.len())
                &&& (forall|i: int|
                    0 <= i < self.n ==> share_ok(
                        #[trigger] vss_schemes@[i],
                        row_share(share_rows@, i, my),
                        self.parties_index@[my],
                    ))
                &&& (forall|i: int|
                    0 <= i < self.n ==> binding_ok(#[trigger] vss_schemes@[i], signers@[i]@))
                &&& r->Ok_0.combined_share.wf()
                &&& r->Ok_0.combined_share@ == sum_shares(share_rows@, my, self.n as int)
            },
            r == Err::<CeremonyOutcome, _>(SchnorrError::IndexNotFound) ==> (
            self.my_index matches Some(i) ==> i >= self.n) && (self.my_index is None ==> forall|
                j: int,
            | 0 <= j < self.n ==> signers@[j]@ != self.keypair.public@),
            r == Err::<CeremonyOutcome, _>(SchnorrError::InvalidShare) ==> exists|i: int, my: int|
                0 <= i < self.n && 0 <= my < self.n && my < share_rows@[i]@.len() && !share_ok(
                    vss_schemes@[i],
                    #[trigger] row_share(share_rows@, i, my),
                    self.parties_index@[my],
                ),
            r == Err::<CeremonyOutcome, _>(SchnorrError::CommitmentBindingFailure) ==> exists|
                i: int,
            | 0 <= i < self.n && !binding_ok(#[trigger] vss_schemes@[i], signers@[i]@),
            signers@.len() == self.n && vss_schemes@.len() == self.n && share_rows@.len() == self.n
                && (exists|my: int|
                {
                    &&& #[trigger] self.index_resolves_to(point_views(signers@), my)
                    &&& 0 <= my < self.n
                    &&& (forall|i: int| 0 <= i < self.n ==> my < share_rows@[i]@.len())
                    &&& (forall|i: int|
                        0 <= i < self.n ==> share_ok(
                            #[trigger] vss_schemes@[i],
                            row_share(share_rows@, i, my),
                            self.parties_index@[my],
                        ))
                    &&& (forall|i: int|
                        0 <= i < self.n ==> binding_ok(#[trigger] vss_schemes@[i], signers@[i]@))
                }) ==> r is Ok,
    {
        let n = self.n;
        if signers.len() != n || vss_schemes.len() != n || share_rows.len() != n {
            return Err(SchnorrError::InvalidLength);
        }
        // Resolve the own position: a known index, or the first broadcast
        // key equal to the own public key.
        let my_index: usize = match self.my_index {
            Some(i) => {
                if i >= n {
                    return Err(SchnorrError::IndexNotFound);
                }
                i
            },
            None => {
                let mut found: Option<usize> = None;
                let mut j: usize = 0;
                while j < n && found.is_none()
                    invariant
                        j <= n,
                        found is None ==> forall|k: int|
                            0 <= k < j ==> signers@[k]@ != self.keypair.public@,
                        found matches Some(f) ==> j == f < n && signers@[f as int]@
                            == self.keypair.public@ && (forall|k: int|
                            0 <= k < f ==> signers@[k]@ != self.keypair.public@),
                    decreases n - j, (if found is None { 1int } else { 0int }),
                {
                    if signers[j].eq_point(&self.keypair.public) {
                        found = Some(j);
                    } else {
                        j = j + 1;
                    }
                }
                match found {
                    Some(f) => f,
                    None => {
                        return Err(SchnorrError::IndexNotFound);
                    },
                }
            },
        };
        proof {
            assert(self.index_resolves_to(point_views(signers@), my_index as int));
        }
        // Collect the share each party dealt to this position.
        let mut party_share: Vec<Scalar> = Vec::new();
        let mut i: usize = 0;
        while i < n
            invariant
                i <= n,
                my_index < n,
                party_share@.len() == i,
                forall|k: int| 0 <= k < i ==> my_index < share_rows@[k]@.len(),
                forall|k: int| 0 <= k < i ==> party_share@[k].wf(),
                forall|k: int| 0 <= k < i ==> party_share@[k]@ == row_share(
                    share_rows@,
                    k,
                    my_index as int,
                ),
            decreases n - i,
        {
            if my_index >= share_rows[i].len() {
                return Err(SchnorrError::InvalidLength);
            }
            party_share.push(share_rows[i][my_index].clone());
            i = i + 1;
        }
        // Validate every received share and every dealer's key binding.
        let pos = self.parties_index[my_index];
        let mut i2: usize = 0;
        while i2 < n
            invariant
                i2 <= n,
                my_index < n,
                pos == self.parties_index@[my_index as int],
                forall|k: int|
                    0 <= k < i2 ==> share_ok(
                        #[trigger] vss_schemes@[k],
                        row_share(share_rows@, k, my_index as int),
                        pos,
                    ),
                forall|k: int|
                    0 <= k < i2 ==> binding_ok(#[trigger] vss_schemes@[k], signers@[k]@),
            decreases n - i2,
        {
            if !vss::validate_share(&vss_schemes[i2], &party_share[i2], pos) {
                proof {
                    assert(!share_ok(
                        vss_schemes@[i2 as int],
                        row_share(share_rows@, i2 as int, my_index as int),
                        self.parties_index@[my_index as int],
                    ));
                    assert(exists|i: int, my: int|
                        0 <= i < self.n && 0 <= my < self.n && my < share_rows@[i]@.len()
                            && !share_ok(
                            vss_schemes@[i],
                            #[trigger] row_share(share_rows@, i, my),
                            self.parties_index@[my],
                        ));
                }
                return Err(SchnorrError::InvalidShare);
            }
            if !vss_schemes[i2].commitments[0].eq_point(&signers[i2]) {
                return Err(SchnorrError::CommitmentBindingFailure);
            }
            i2 = i2 + 1;
        }
        // Sum the received shares into the combined share.
        let mut acc: Scalar = party_share[0].clone();
        let mut i3: usize = 1;
        while i3 < n
            invariant
                1 <= i3 <= n,
                acc.wf(),
                acc@ == sum_shares(share_rows@, my_index as int, i3 as int),
            decreases n - i3,
        {
            acc = curve::scalar_add(&acc, &party_share[i3]);
            i3 = i3 + 1;
        }
        Ok(CeremonyOutcome { my_index, combined_share: acc })
    }
}

} // verus!
