//! Lagrange interpolation at zero over a small prime modulus.
//!
//! The integer model of the reconstruction rule: the same Lagrange form the
//! curve-scalar reconstruction uses, over plain machine integers modulo a
//! caller-supplied prime `q`, so the rule can be exercised and checked
//! without any curve arithmetic. With `q = 17` and shares of
//! `f(x) = 7 + 4x`, any two of the shares `f(1), f(2), f(3)` recover
//! `f(0) = 7`.

use vstd::prelude::*;

verus! {

/// `(a + b) mod q`.
pub open spec fn add_mod(q: nat, a: nat, b: nat) -> nat {
    (a + b) % q
}

/// `(a * b) mod q`.
pub open spec fn mul_mod(q: nat, a: nat, b: nat) -> nat {
    (a * b) % q
}

/// `(a - b) mod q`, computed without going negative.
pub open spec fn sub_mod(q: nat, a: nat, b: nat) -> nat {
    ((a % q + q - b % q) % (q as int)) as nat
}

/// Whether `x` has a multiplicative inverse modulo `q`.
pub open spec fn has_inv(q: nat, x: nat) -> bool {
    exists|w: nat| w < q && #[trigger] mul_mod(q, x, w) == 1
}

/// The multiplicative inverse of `x` modulo `q`, meaningful when one
/// exists; it is then unique below `q`.
pub open spec fn mod_inv(q: nat, x: nat) -> nat {
    choose|w: nat| w < q && #[trigger] mul_mod(q, x, w) == 1
}

/// An inverse modulo `q` is unique among residues.
pub proof fn lemma_mod_inv_unique(q: nat, x: nat, w1: nat, w2: nat)
    requires
        q >= 2,
        w1 < q,
        w2 < q,
        mul_mod(q, x, w1) == 1,
        mul_mod(q, x, w2) == 1,
    ensures
        w1 == w2,
{
    let qi = q as int;
    let xi = x as int;
    let a = w1 as int;
    let b = w2 as int;
    assert(a * (xi * b) == (xi * a) * b) by (nonlinear_arith);
    vstd::arithmetic::div_mod::lemma_mul_mod_noop_right(a, xi * b, qi);
    assert((a * (xi * b)) % qi == (a * ((xi * b) % qi)) % qi);
    assert((xi * b) % qi == 1);
    assert((a * ((xi * b) % qi)) % qi == a % qi);
    vstd::arithmetic::div_mod::lemma_small_mod(w1, q);
    vstd::arithmetic::div_mod::lemma_mul_mod_noop_left(xi * a, b, qi);
    assert(((xi * a) * b) % qi == (((xi * a) % qi) * b) % qi);
    assert((xi * a) % qi == 1);
    assert((((xi * a) % qi) * b) % qi == b % qi);
    vstd::arithmetic::div_mod::lemma_small_mod(w2, q);
}

/// `(a * b) mod q` on machine integers.
pub fn mul_mod_exec(q: u64, a: u64, b: u64) -> (r: u64)
    requires
        q >= 1,
    ensures
        r == mul_mod(q as nat, a as nat, b as nat),
        r < q,
{
    let aw = a as u128;
    let bw = b as u128;
    proof {
        assert(aw * bw <= u128::MAX) by (nonlinear_arith)
            requires
                aw <= 0xffff_ffff_ffff_ffffu128,
                bw <= 0xffff_ffff_ffff_ffffu128,
        ;
    }
    ((aw * bw) % (q as u128)) as u64
}

/// `(a + b) mod q` on machine integers.
pub fn add_mod_exec(q: u64, a: u64, b: u64) -> (r: u64)
    requires
        q >= 1,
    ensures
        r == add_mod(q as nat, a as nat, b as nat),
        r < q,
{
    (((a as u128) + (b as u128)) % (q as u128)) as u64
}

/// `(a - b) mod q` on machine integers.
pub fn sub_mod_exec(q: u64, a: u64, b: u64) -> (r: u64)
    requires
        q >= 1,
    ensures
        r == sub_mod(q as nat, a as nat, b as nat),
        r < q,
{
    let aa = a % q;
    let bb = b % q;
    (((aa as u128) + (q as u128) - (bb as u128)) % (q as u128)) as u64
}

/// The least inverse of `x` modulo `q`, by exhaustive search: exactly the
/// residues with an inverse get one, and it is the unique inverse.
#[verifier::loop_isolation(false)]
pub fn mod_inverse(q: u64, x: u64) -> (r: Option<u64>)
    requires
        q >= 2,
    ensures
        r matches Some(w) ==> w < q && mul_mod(q as nat, x as nat, w as nat) == 1 && w as nat
            == mod_inv(q as nat, x as nat),
        r is None ==> !has_inv(q as nat, x as nat),
{
    let mut w: u64 = 0;
    while w < q
        invariant
            w <= q,
            forall|v: nat| v < w ==> #[trigger] mul_mod(q as nat, x as nat, v) != 1,
        decreases q - w,
    {
        if mul_mod_exec(q, x, w) == 1 {
            proof {
                let c = mod_inv(q as nat, x as nat);
                assert(c < q && mul_mod(q as nat, x as nat, c) == 1);
                lemma_mod_inv_unique(q as nat, x as nat, w as nat, c);
            }
            return Some(w);
        }
        w = w + 1;
    }
    proof {
        assert forall|v: nat| v < q implies #[trigger] mul_mod(q as nat, x as nat, v) != 1 by {}
    }
    None
}

/// The running product of Lagrange basis factors for term `i` over the
/// first `j` positions (skipping `j = i`): each factor is
/// `x_j * (x_j - x_i)^-1 mod q`.
pub open spec fn basis_upto(q: nat, xs: Seq<u64>, i: int, j: int) -> nat
    decreases j,
{
    if j <= 0 {
        1
    } else if j - 1 == i {
        basis_upto(q, xs, i, j - 1)
    } else {
        mul_mod(
            q,
            basis_upto(q, xs, i, j - 1),
            mul_mod(
                q,
                xs[j - 1] as nat,
                mod_inv(q, sub_mod(q, xs[j - 1] as nat, xs[i] as nat)),
            ),
        )
    }
}

/// Lagrange term `i`: the value times its basis polynomial at zero.
pub open spec fn term_at(q: nat, xs: Seq<u64>, vs: Seq<u64>, i: int) -> nat {
    mul_mod(q, vs[i] as nat, basis_upto(q, xs, i, xs.len() as int))
}

/// The sum of the first `j` Lagrange terms.
pub open spec fn interp_sum(q: nat, xs: Seq<u64>, vs: Seq<u64>, j: int) -> nat
    decreases j,
{
    if j <= 0 {
        0
    } else {
        add_mod(q, interp_sum(q, xs, vs, j - 1), term_at(q, xs, vs, j - 1))
    }
}

/// A pair of positions whose difference has no inverse modulo `q`: the one
/// way interpolation can fail (coinciding positions, or a composite `q`).
pub open spec fn missing_inverse(q: nat, xs: Seq<u64>) -> bool {
    exists|i: int, j: int|
        0 <= i < xs.len() && 0 <= j < xs.len() && j != i && !has_inv(
            q,
            #[trigger] sub_mod(q, xs[j] as nat, xs[i] as nat),
        )
}

/// Lagrange-interpolates at zero over the field of integers modulo the
/// prime `q`: from pairs `(x_k, f(x_k))` of a polynomial of degree less
/// than the pair count, the result is `f(0) mod q`.
#[verifier::loop_isolation(false)]
pub fn reconstruct_mod(q: u64, indices: &Vec<u64>, values: &Vec<u64>) -> (r: Option<u64>)
    requires
        q >= 2,
        indices@.len() == values@.len(),
    ensures
        r matches Some(s) ==> s < q && s as nat == interp_sum(
            q as nat,
            indices@,
            values@,
            indices@.len() as int,
        ),
        r is Some <==> !missing_inverse(q as nat, indices@),
{
    let m = indices.len();
    let mut sum: u64 = 0;
    let mut i: usize = 0;
    while i < m
        invariant
            i <= m,
            sum < q,
            sum as nat == interp_sum(q as nat, indices@, values@, i as int),
            forall|x: int, y: int|
                0 <= x < i && 0 <= y < m && y != x ==> has_inv(
                    q as nat,
                    #[trigger] sub_mod(q as nat, indices@[y] as nat, indices@[x] as nat),
                ),
        decreases m - i,
    {
        let mut basis: u64 = 1;
        let mut j: usize = 0;
        while j < m
            invariant
                j <= m,
                i < m,
                basis < q || basis == 1,
                basis as nat == basis_upto(q as nat, indices@, i as int, j as int),
                forall|y: int|
                    0 <= y < j && y != i ==> has_inv(
                        q as nat,
                        #[trigger] sub_mod(q as nat, indices@[y] as nat, indices@[i as int] as nat),
                    ),
            decreases m - j,
        {
            if j != i {
                let d = sub_mod_exec(q, indices[j], indices[i]);
                let dinv = match mod_inverse(q, d) {
                    Some(w) => w,
                    None => {
                        proof {
                            assert(!has_inv(
                                q as nat,
                                sub_mod(q as nat, indices@[j as int] as nat, indices@[i as int] as nat),
                            ));
                            assert(missing_inverse(q as nat, indices@));
                        }
                        return None;
                    },
                };
                let factor = mul_mod_exec(q, indices[j], dinv);
                basis = mul_mod_exec(q, basis, factor);
            }
            j = j + 1;
        }
        let term = mul_mod_exec(q, values[i], basis);
        sum = add_mod_exec(q, sum, term);
        i = i + 1;
    }
    proof {
        if missing_inverse(q as nat, indices@) {
            let (x, y) = choose|x: int, y: int|
                0 <= x < indices@.len() && 0 <= y < indices@.len() && y != x && !has_inv(
                    q as nat,
                    #[trigger] sub_mod(q as nat, indices@[y] as nat, indices@[x] as nat),
                );
            assert(has_inv(q as nat, sub_mod(q as nat, indices@[y] as nat, indices@[x] as nat)));
        }
    }
    Some(sum)
}

} // verus!
