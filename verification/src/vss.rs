//! Feldman verifiable secret sharing.
//!
//! A secret is shared as a degree-`t` polynomial with the secret as constant
//! term; each party receives the polynomial evaluated at its index, and the
//! coefficients are published as commitments `coefficient * G`. A recipient
//! checks its share against the commitments without learning the secret;
//! commitment vectors of sharings with equal shape add homomorphically; and
//! the secret (or any polynomial image) is recovered from `t + 1` shares by
//! Lagrange interpolation at zero.

use crate::codec::zero_bytes;
use crate::curve;
use crate::curve::{
    index_scalar, mul_g_of, point_add_of, point_mul_of, scalar_add_of, scalar_inv_of,
    scalar_mul_of, scalar_sub_of, Point, Scalar,
};
use crate::errors::SchnorrError;
use vstd::prelude::*;

verus! {

/// The views of a sequence of scalars.
pub open spec fn scalar_views(v: Seq<Scalar>) -> Seq<Seq<u8>> {
    v.map_values(|s: Scalar| s@)
}

/// The views of a sequence of points.
pub open spec fn point_views(v: Seq<Point>) -> Seq<Seq<u8>> {
    v.map_values(|p: Point| p@)
}

/// The evaluation positions the party indices denote.
pub open spec fn positions_of(indices: Seq<usize>) -> Seq<Seq<u8>> {
    indices.map_values(|i: usize| index_scalar(i as u64))
}

/// The shape of a sharing: polynomial degree `threshold` and the number of
/// shares dealt; reconstruction needs exactly `threshold + 1` shares.
#[derive(Clone, Copy, Debug, PartialEq, Eq, Structural)]
pub struct ShareParams {
    pub threshold: usize,
    pub share_count: usize,
}

/// The public part of a sharing: its shape and the `threshold + 1` Feldman
/// commitments to the polynomial's coefficients.
pub struct VssScheme {
    pub parameters: ShareParams,
    pub commitments: Vec<Point>,
}

impl VssScheme {
    /// Shape and commitments agree and every commitment is canonical.
    pub open spec fn wf(&self) -> bool {
        &&& self.commitments@.len() == self.parameters.threshold + 1
        &&& forall|k: int| 0 <= k < self.commitments@.len() ==> self.commitments@[k].wf()
    }

    /// The commitment views.
    pub open spec fn comms(&self) -> Seq<Seq<u8>> {
        point_views(self.commitments@)
    }

    /// Builds a scheme from received commitment points, checking that their
    /// number matches the shape.
    pub fn new(threshold: usize, share_count: usize, commitments: Vec<Point>) -> (r: Result<
        VssScheme,
        SchnorrError,
    >)
        requires
            forall|k: int| 0 <= k < commitments@.len() ==> commitments@[k].wf(),
        ensures
            r is Ok <==> commitments@.len() == threshold + 1,
            r is Err ==> r->Err_0 == SchnorrError::InvalidLength,
            r is Ok ==> r->Ok_0.wf() && r->Ok_0.parameters == (ShareParams {
                threshold,
                share_count,
            }) && r->Ok_0.comms() == point_views(commitments@),
    {
        if commitments.len() >= 1 && commitments.len() - 1 == threshold {
            Ok(VssScheme { parameters: ShareParams { threshold, share_count }, commitments })
        } else {
            Err(SchnorrError::InvalidLength)
        }
    }
}

/// The polynomial with the given coefficients (constant term first),
/// evaluated at `x` in Horner form.
pub open spec fn poly_eval_spec(coeffs: Seq<Seq<u8>>, x: Seq<u8>) -> Seq<u8>
    decreases coeffs.len(),
{
    if coeffs.len() <= 1 {
        coeffs.first()
    } else {
        scalar_add_of(coeffs.first(), scalar_mul_of(x, poly_eval_spec(coeffs.drop_first(), x)))
    }
}

/// The commitment polynomial (a point for each coefficient) evaluated at
/// scalar `x` in Horner form: `c_0 + x * (c_1 + x * (...))`.
pub open spec fn commit_eval_spec(comms: Seq<Seq<u8>>, x: Seq<u8>) -> Seq<u8>
    decreases comms.len(),
{
    if comms.len() <= 1 {
        comms.first()
    } else {
        point_add_of(comms.first(), point_mul_of(commit_eval_spec(comms.drop_first(), x), x))
    }
}

/// Evaluates the secret polynomial at `x`.
#[verifier::loop_isolation(false)]
fn poly_eval(coeffs: &Vec<Scalar>, x: &Scalar) -> (r: Scalar)
    requires
        coeffs@.len() >= 1,
        forall|i: int| 0 <= i < coeffs@.len() ==> coeffs@[i].wf(),
        x.wf(),
    ensures
        r.wf(),
        r@ == poly_eval_spec(scalar_views(coeffs@), x@),
{
    let ghost sv = scalar_views(coeffs@);
    let n = coeffs.len();
    let mut acc: Scalar = coeffs[n - 1].clone();
    let mut k: usize = n - 1;
    while k > 0
        invariant
            k < n,
            acc.wf(),
            acc@ == poly_eval_spec(sv.subrange(k as int, n as int), x@),
        decreases k,
    {
        k = k - 1;
        let m = curve::scalar_mul(x, &acc);
        acc = curve::scalar_add(&coeffs[k], &m);
        proof {
            let tail = sv.subrange(k as int, n as int);
            assert(tail.drop_first() =~= sv.subrange(k + 1 as int, n as int));
        }
    }
    proof {
        assert(sv.subrange(0, n as int) =~= sv);
    }
    acc
}

/// Evaluates the public commitment polynomial at the party index `index`:
/// the inner-product form `sum_k commitments[k] * index^k`, computed in
/// Horner form. Used to check a share, or a combined signature share,
/// without revealing any secret.
#[verifier::loop_isolation(false)]
pub fn evaluate_commitment_at(scheme: &VssScheme, index: usize) -> (r: Point)
    requires
        scheme.wf(),
    ensures
        r.wf(),
        r@ == commit_eval_spec(scheme.comms(), index_scalar(index as u64)),
{
    let ghost cv = scheme.comms();
    let x = curve::scalar_from_index(index);
    let n = scheme.commitments.len();
    let mut acc: Point = scheme.commitments[n - 1].clone();
    let mut k: usize = n - 1;
    while k > 0
        invariant
            k < n,
            acc.wf(),
            acc@ == commit_eval_spec(cv.subrange(k as int, n as int), x@),
        decreases k,
    {
        k = k - 1;
        let m = curve::point_mul(&acc, &x);
        acc = curve::point_add(&scheme.commitments[k], &m);
        proof {
            let tail = cv.subrange(k as int, n as int);
            assert(tail.drop_first() =~= cv.subrange(k + 1 as int, n as int));
        }
    }
    proof {
        assert(cv.subrange(0, n as int) =~= cv);
    }
    acc
}

/// What `share_at` produces from a coefficient vector: the constant term is
/// the secret, each commitment is a coefficient times `G`, and each share is
/// the polynomial at that party's index.
pub open spec fn share_at_post(
    coeffs: Seq<Seq<u8>>,
    t: usize,
    n: usize,
    secret: Seq<u8>,
    indices: Seq<usize>,
    comms: Seq<Seq<u8>>,
    shares: Seq<Seq<u8>>,
) -> bool {
    &&& coeffs.len() == t + 1
    &&& coeffs.first() == secret
    &&& comms.len() == t + 1
    &&& (forall|k: int| 0 <= k < comms.len() ==> comms[k] == mul_g_of(coeffs[k]))
    &&& shares.len() == n
    &&& (forall|i: int|
        0 <= i < shares.len() ==> shares[i] == poly_eval_spec(
            coeffs,
            index_scalar(indices[i] as u64),
        ))
}

/// Builds a degree-`t` polynomial with constant term `secret` and uniformly
/// random higher coefficients, evaluates it at each of the `n` supplied
/// party indices, and commits to every coefficient.
#[verifier::loop_isolation(false)]
pub fn share_at(t: usize, n: usize, secret: &Scalar, indices: &Vec<usize>) -> (r: Result<
    (VssScheme, Vec<Scalar>),
    SchnorrError,
>)
    requires
        secret.wf(),
    ensures
        r is Ok <==> indices@.len() == n,
        r is Err ==> r->Err_0 == SchnorrError::InvalidLength,
        r is Ok ==> r->Ok_0.0.wf(),
        r is Ok ==> r->Ok_0.0.parameters == (ShareParams { threshold: t, share_count: n }),
        r is Ok ==> (forall|i: int| 0 <= i < r->Ok_0.1@.len() ==> r->Ok_0.1@[i].wf()),
        r is Ok ==> exists|coeffs: Seq<Seq<u8>>|
            share_at_post(
                coeffs,
                t,
                n,
                secret@,
                indices@,
                r->Ok_0.0.comms(),
                scalar_views(r->Ok_0.1@),
            ),
{
    if indices.len() != n {
        return Err(SchnorrError::InvalidLength);
    }
    let mut coeffs: Vec<Scalar> = Vec::new();
    coeffs.push(secret.clone());
    let mut k: usize = 0;
    while k < t
        invariant
            k <= t,
            coeffs@.len() == k + 1,
            forall|i: int| 0 <= i < coeffs@.len() ==> coeffs@[i].wf(),
            coeffs@[0]@ == secret@,
        decreases t - k,
    {
        coeffs.push(curve::random_scalar());
        k = k + 1;
    }
    let mut comms: Vec<Point> = Vec::new();
    let mut k2: usize = 0;
    while k2 < coeffs.len()
        invariant
            k2 <= coeffs@.len(),
            comms@.len() == k2,
            forall|i: int| 0 <= i < comms@.len() ==> comms@[i].wf(),
            forall|i: int| 0 <= i < comms@.len() ==> comms@[i]@ == mul_g_of(coeffs@[i]@),
        decreases coeffs@.len() - k2,
    {
        comms.push(curve::mul_g(&coeffs[k2]));
        k2 = k2 + 1;
    }
    let mut shares: Vec<Scalar> = Vec::new();
    let mut j: usize = 0;
    while j < indices.len()
        invariant
            j <= indices@.len(),
            shares@.len() == j,
            forall|i: int| 0 <= i < shares@.len() ==> shares@[i].wf(),
            forall|i: int|
                0 <= i < shares@.len() ==> shares@[i]@ == poly_eval_spec(
                    scalar_views(coeffs@),
                    index_scalar(indices@[i] as u64),
                ),
        decreases indices@.len() - j,
    {
        let x = curve::scalar_from_index(indices[j]);
        shares.push(poly_eval(&coeffs, &x));
        j = j + 1;
    }
    let scheme = VssScheme {
        parameters: ShareParams { threshold: t, share_count: n },
        commitments: comms,
    };
    let r: Result<(VssScheme, Vec<Scalar>), SchnorrError> = Ok((scheme, shares));
    proof {
        let w = scalar_views(coeffs@);
        assert(share_at_post(
            w,
            t,
            n,
            secret@,
            indices@,
            r->Ok_0.0.comms(),
            scalar_views(r->Ok_0.1@),
        ));
    }
    r
}

/// The standard Feldman check: accepts the share for party `index` exactly
/// when `share * G` equals the commitment polynomial at `index`. A recipient
/// catches a corrupted or malicious share without learning the secret.
pub fn validate_share(scheme: &VssScheme, share: &Scalar, index: usize) -> (r: bool)
    requires
        scheme.wf(),
        share.wf(),
    ensures
        r == (mul_g_of(share@) == commit_eval_spec(scheme.comms(), index_scalar(index as u64))),
{
    let lhs = curve::mul_g(share);
    let rhs = evaluate_commitment_at(scheme, index);
    lhs.eq_point(&rhs)
}

/// The weight applied to one scheme's commitment: scalar-multiplied when a
/// weight is given, taken as is when not.
pub open spec fn scaled_comm(c: Seq<u8>, w: Option<Seq<u8>>) -> Seq<u8> {
    match w {
        Option::None => c,
        Option::Some(wv) => point_mul_of(c, wv),
    }
}

/// The weight for scheme `j`, when weights are given at all.
pub open spec fn weight_at(weights: Option<Seq<Seq<u8>>>, j: int) -> Option<Seq<u8>> {
    match weights {
        Option::None => Option::None,
        Option::Some(ws) => Option::Some(ws[j]),
    }
}

/// The sum of coefficient `k`'s (optionally weighted) commitments over the
/// first `j` schemes.
pub open spec fn col_sum_spec(
    schemes: Seq<VssScheme>,
    weights: Option<Seq<Seq<u8>>>,
    k: int,
    j: int,
) -> Seq<u8>
    decreases j,
{
    if j <= 1 {
        scaled_comm(schemes[0].comms()[k], weight_at(weights, 0))
    } else {
        point_add_of(
            col_sum_spec(schemes, weights, k, j - 1),
            scaled_comm(schemes[j - 1].comms()[k], weight_at(weights, j - 1)),
        )
    }
}

/// The views of optional weights.
pub open spec fn weights_view(weights: Option<&Vec<Scalar>>) -> Option<Seq<Seq<u8>>> {
    match weights {
        Option::None => Option::None,
        Option::Some(ws) => Option::Some(scalar_views(ws@)),
    }
}

/// Produces the commitment vector of the sharing of the (optionally
/// weighted) sum of the underlying secrets, by point-wise adding the aligned
/// commitment vectors of equal shape.
#[verifier::loop_isolation(false)]
pub fn combine(schemes: &Vec<VssScheme>, weights: Option<&Vec<Scalar>>) -> (r: Result<
    VssScheme,
    SchnorrError,
>)
    requires
        forall|i: int| 0 <= i < schemes@.len() ==> schemes@[i].wf(),
        weights matches Some(ws) ==> forall|i: int| 0 <= i < ws@.len() ==> ws@[i].wf(),
    ensures
        schemes@.len() == 0 ==> r == Err::<VssScheme, _>(SchnorrError::EmptyInput),
        schemes@.len() > 0 && (exists|i: int|
            0 <= i < schemes@.len() && #[trigger] schemes@[i].parameters != schemes@[0].parameters)
            ==> r == Err::<VssScheme, _>(SchnorrError::ShapeMismatch),
        schemes@.len() > 0 && (forall|i: int|
            0 <= i < schemes@.len() ==> #[trigger] schemes@[i].parameters == schemes@[0].parameters)
            && (weights matches Some(ws) && ws@.len() != schemes@.len()) ==> r == Err::<
            VssScheme,
            _,
        >(SchnorrError::InvalidLength),
        schemes@.len() > 0 && (forall|i: int|
            0 <= i < schemes@.len() ==> #[trigger] schemes@[i].parameters == schemes@[0].parameters)
            && (weights matches Some(ws) ==> ws@.len() == schemes@.len()) ==> r is Ok,
        r is Ok ==> {
            let c = r->Ok_0;
            &&& schemes@.len() > 0
            &&& (forall|i: int|
                0 <= i < schemes@.len() ==> #[trigger] schemes@[i].parameters == schemes@[0].parameters)
            &&& (weights matches Some(ws) ==> ws@.len() == schemes@.len())
            &&& c.wf()
            &&& c.parameters == schemes@[0].parameters
            &&& forall|k: int|
                0 <= k < c.comms().len() ==> c.comms()[k] == col_sum_spec(
                    schemes@,
                    weights_view(weights),
                    k,
                    schemes@.len() as int,
                )
        },
{
    if schemes.len() == 0 {
        return Err(SchnorrError::EmptyInput);
    }
    let t = schemes[0].parameters.threshold;
    let n0 = schemes[0].parameters.share_count;
    let mut i: usize = 0;
    while i < schemes.len()
        invariant
            i <= schemes@.len(),
            forall|x: int| 0 <= x < i ==> #[trigger] schemes@[x].parameters == schemes@[0].parameters,
        decreases schemes@.len() - i,
    {
        if schemes[i].parameters.threshold != t || schemes[i].parameters.share_count != n0 {
            return Err(SchnorrError::ShapeMismatch);
        }
        i = i + 1;
    }
    match weights {
        Some(ws) => {
            if ws.len() != schemes.len() {
                return Err(SchnorrError::InvalidLength);
            }
        },
        None => {},
    }
    let m = schemes.len();
    let tp1 = schemes[0].commitments.len();
    proof {
        assert(tp1 == t + 1);
    }
    let mut comms: Vec<Point> = Vec::new();
    let mut k: usize = 0;
    while k < tp1
        invariant
            tp1 == t + 1,
            k <= t + 1,
            comms@.len() == k,
            forall|x: int| 0 <= x < comms@.len() ==> comms@[x].wf(),
            forall|x: int|
                0 <= x < comms@.len() ==> comms@[x]@ == col_sum_spec(
                    schemes@,
                    weights_view(weights),
                    x,
                    m as int,
                ),
        decreases t + 1 - k,
    {
        let mut acc: Point = scale_comm(&schemes[0].commitments[k], weights, 0);
        let mut j: usize = 1;
        while j < m
            invariant
                1 <= j <= m,
                k < t + 1,
                acc.wf(),
                acc@ == col_sum_spec(schemes@, weights_view(weights), k as int, j as int),
            decreases m - j,
        {
            let s = scale_comm(&schemes[j].commitments[k], weights, j);
            acc = curve::point_add(&acc, &s);
            j = j + 1;
        }
        comms.push(acc);
        k = k + 1;
    }
    let c = VssScheme { parameters: ShareParams { threshold: t, share_count: n0 }, commitments: comms };
    Ok(c)
}

/// One scheme's commitment, weighted when weights are given.
fn scale_comm(c: &Point, weights: Option<&Vec<Scalar>>, j: usize) -> (r: Point)
    requires
        c.wf(),
        weights matches Some(ws) ==> j < ws@.len() && (forall|i: int|
            0 <= i < ws@.len() ==> ws@[i].wf()),
    ensures
        r.wf(),
        r@ == scaled_comm(c@, weight_at(weights_view(weights), j as int)),
{
    match weights {
        Some(ws) => curve::point_mul(c, &ws[j]),
        None => c.clone(),
    }
}

/// The product of `ps[j']` over `j' < j`, `j' != i`; `None` while the range
/// holds no factor.
pub open spec fn prod_except(ps: Seq<Seq<u8>>, i: int, j: int) -> Option<Seq<u8>>
    decreases j,
{
    if j <= 0 {
        Option::None
    } else if j - 1 == i {
        prod_except(ps, i, j - 1)
    } else {
        match prod_except(ps, i, j - 1) {
            Option::None => Option::Some(ps[j - 1]),
            Option::Some(a) => Option::Some(scalar_mul_of(a, ps[j - 1])),
        }
    }
}

/// The product of `ps[j'] - ps[i]` over `j' < j`, `j' != i`.
pub open spec fn den_except(ps: Seq<Seq<u8>>, i: int, j: int) -> Option<Seq<u8>>
    decreases j,
{
    if j <= 0 {
        Option::None
    } else if j - 1 == i {
        den_except(ps, i, j - 1)
    } else {
        match den_except(ps, i, j - 1) {
            Option::None => Option::Some(scalar_sub_of(ps[j - 1], ps[i])),
            Option::Some(a) => Option::Some(scalar_mul_of(a, scalar_sub_of(ps[j - 1], ps[i]))),
        }
    }
}

/// Lagrange term `i` over `m` positions: `values[i]` times the basis
/// polynomial at zero, `prod(ps[j]) * prod(ps[j] - ps[i])^-1` over `j != i`.
pub open spec fn lagrange_term(ps: Seq<Seq<u8>>, vs: Seq<Seq<u8>>, i: int, m: int) -> Seq<u8> {
    match (prod_except(ps, i, m), den_except(ps, i, m)) {
        (Option::Some(num), Option::Some(den)) => scalar_mul_of(
            vs[i],
            scalar_mul_of(num, scalar_inv_of(den)),
        ),
        _ => vs[i],
    }
}

/// The sum of the first `j` Lagrange terms.
pub open spec fn lagrange_sum(ps: Seq<Seq<u8>>, vs: Seq<Seq<u8>>, j: int, m: int) -> Seq<u8>
    decreases j,
{
    if j <= 1 {
        lagrange_term(ps, vs, 0, m)
    } else {
        scalar_add_of(lagrange_sum(ps, vs, j - 1, m), lagrange_term(ps, vs, j - 1, m))
    }
}

/// Whether the denominator product for term `i` collapses to zero: only
/// possible when two party indices coincide modulo the group order.
pub open spec fn den_zero_at(ps: Seq<Seq<u8>>, i: int, m: int) -> bool {
    den_except(ps, i, m) matches Some(d) && d == zero_bytes(32)
}

/// Whether some denominator product over the positions collapses to zero.
pub open spec fn degenerate_positions(ps: Seq<Seq<u8>>, m: int) -> bool {
    exists|i: int| 0 <= i < m && #[trigger] den_zero_at(ps, i, m)
}

/// Lagrange-interpolates the shared polynomial at zero from exactly
/// `t + 1` (party index, value) pairs. Fewer pairs cannot determine the
/// polynomial; more than `t + 1` are treated as a caller error rather than
/// silently truncated; coinciding positions are rejected.
#[verifier::loop_isolation(false)]
pub fn reconstruct(scheme: &VssScheme, indices: &Vec<usize>, values: &Vec<Scalar>) -> (r: Result<
    Scalar,
    SchnorrError,
>)
    requires
        scheme.wf(),
        forall|i: int| 0 <= i < values@.len() ==> values@[i].wf(),
    ensures
        indices@.len() != values@.len() ==> r == Err::<Scalar, _>(SchnorrError::InvalidLength),
        indices@.len() == values@.len() && indices@.len() < scheme.parameters.threshold + 1 ==> r
            == Err::<Scalar, _>(SchnorrError::InsufficientShares),
        indices@.len() == values@.len() && indices@.len() > scheme.parameters.threshold + 1 ==> r
            == Err::<Scalar, _>(SchnorrError::InvalidLength),
        indices@.len() == values@.len() && indices@.len() == scheme.parameters.threshold + 1 ==> {
            let ps = positions_of(indices@);
            let m = indices@.len() as int;
            &&& (degenerate_positions(ps, m) ==> r == Err::<Scalar, _>(
                SchnorrError::InvalidParameters,
            ))
            &&& (!degenerate_positions(ps, m) ==> r is Ok && r->Ok_0@ == lagrange_sum(
                ps,
                scalar_views(values@),
                m,
                m,
            ))
        },
        r is Ok ==> r->Ok_0.wf(),
{
    let t = scheme.parameters.threshold;
    if indices.len() != values.len() {
        return Err(SchnorrError::InvalidLength);
    }
    if indices.len() == 0 {
        return Err(SchnorrError::InsufficientShares);
    }
    if indices.len() - 1 < t {
        return Err(SchnorrError::InsufficientShares);
    }
    if indices.len() - 1 > t {
        return Err(SchnorrError::InvalidLength);
    }
    let m = indices.len();
    let ghost ps = positions_of(indices@);
    let ghost vs = scalar_views(values@);
    let mut positions: Vec<Scalar> = Vec::new();
    let mut i: usize = 0;
    while i < m
        invariant
            i <= m,
            positions@.len() == i,
            forall|x: int| 0 <= x < i ==> positions@[x].wf(),
            forall|x: int| 0 <= x < i ==> positions@[x]@ == ps[x],
        decreases m - i,
    {
        positions.push(curve::scalar_from_index(indices[i]));
        i = i + 1;
    }
    proof {
        assert(scalar_views(positions@) =~= ps);
    }
    let mut sigma: Option<Scalar> = None;
    let mut i2: usize = 0;
    while i2 < m
        invariant
            i2 <= m,
            forall|x: int| 0 <= x < i2 ==> !den_zero_at(ps, x, m as int),
            i2 == 0 ==> sigma is None,
            i2 > 0 ==> (sigma matches Some(s) && s.wf() && s@ == lagrange_sum(
                ps,
                vs,
                i2 as int,
                m as int,
            )),
        decreases m - i2,
    {
        let term = match lagrange_term_exec(&positions, values, i2) {
            Ok(tm) => tm,
            Err(e) => {
                proof {
                    assert(scalar_views(positions@) =~= ps);
                    assert(den_zero_at(ps, i2 as int, m as int));
                    assert(degenerate_positions(ps, m as int));
                }
                return Err(e);
            },
        };
        sigma = match sigma {
            None => Some(term),
            Some(s) => Some(curve::scalar_add(&s, &term)),
        };
        i2 = i2 + 1;
    }
    proof {
        assert(!degenerate_positions(ps, m as int));
    }
    match sigma {
        Some(s) => Ok(s),
        None => Err(SchnorrError::InsufficientShares),
    }
}

/// Computes Lagrange term `i`, failing when the denominator product is zero.
#[verifier::loop_isolation(false)]
fn lagrange_term_exec(positions: &Vec<Scalar>, values: &Vec<Scalar>, i: usize) -> (r: Result<
    Scalar,
    SchnorrError,
>)
    requires
        positions@.len() == values@.len(),
        i < positions@.len(),
        forall|x: int| 0 <= x < positions@.len() ==> positions@[x].wf(),
        forall|x: int| 0 <= x < values@.len() ==> values@[x].wf(),
    ensures
        ({
            let ps = scalar_views(positions@);
            let m = positions@.len() as int;
            &&& (r is Err <==> den_zero_at(ps, i as int, m))
            &&& (r is Err ==> r->Err_0 == SchnorrError::InvalidParameters)
            &&& (r is Ok ==> r->Ok_0.wf() && r->Ok_0@ == lagrange_term(
                ps,
                scalar_views(values@),
                i as int,
                m,
            ))
        }),
{
    let ghost ps = scalar_views(positions@);
    let m = positions.len();
    let mut num: Option<Scalar> = None;
    let mut den: Option<Scalar> = None;
    let mut j: usize = 0;
    while j < m
        invariant
            j <= m,
            i < m,
            match num {
                Option::None => prod_except(ps, i as int, j as int) is None,
                Option::Some(a) => a.wf() && prod_except(ps, i as int, j as int) == Some(a@),
            },
            match den {
                Option::None => den_except(ps, i as int, j as int) is None,
                Option::Some(a) => a.wf() && den_except(ps, i as int, j as int) == Some(a@),
            },
            num is Some <==> den is Some,
        decreases m - j,
    {
        if j != i {
            let d = curve::scalar_sub(&positions[j], &positions[i]);
            num = match num {
                None => Some(positions[j].clone()),
                Some(a) => Some(curve::scalar_mul(&a, &positions[j])),
            };
            den = match den {
                None => Some(d),
                Some(a) => Some(curve::scalar_mul(&a, &d)),
            };
        }
        j = j + 1;
    }
    match (num, den) {
        (Some(n), Some(d)) => {
            match curve::scalar_invert(&d) {
                Some(dinv) => {
                    let basis = curve::scalar_mul(&n, &dinv);
                    Ok(curve::scalar_mul(&values[i], &basis))
                },
                None => Err(SchnorrError::InvalidParameters),
            }
        },
        _ => Ok(values[i].clone()),
    }
}

} // verus!
