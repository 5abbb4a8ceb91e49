//! The boundary to the elliptic-curve library.
//!
//! Scalars and points live in this crate as their canonical byte encodings:
//! a scalar is 32 big-endian bytes (the value reduced modulo the group order
//! `q`), a point is its 33-byte compressed SEC1 form, where 33 zero bytes
//! stand for the group's neutral element. Every group and field operation,
//! the hash-to-scalar, the commitment hash and the randomness source are
//! calls into the curve library behind the trusted items of this module;
//! their results are bound to uninterpreted names, and everything the rest
//! of the crate proves is stated over those names.

use crate::codec::zero_bytes;
use curv::arithmetic::traits::{Converter, Samplable};
use curv::cryptographic_primitives::commitments::hash_commitment::HashCommitment;
use curv::cryptographic_primitives::commitments::traits::Commitment;
use curv::cryptographic_primitives::hashing::DigestExt;
use curv::elliptic::curves::{Point as CPoint, Scalar as CScalar, Secp256k1};
use curv::BigInt;
use sha2::Digest;
use vstd::prelude::*;

verus! {

/// What `Point::from_bytes` followed by compressed re-serialization returns:
/// the canonical compressed form of the point the bytes denote, or nothing
/// when the bytes are not a valid encoding.
pub uninterp spec fn parse_point_of(bytes: Seq<u8>) -> Option<Seq<u8>>;

/// The 65-byte uncompressed serialization of the point with the given
/// canonical compressed form.
pub uninterp spec fn uncompressed_of(p: Seq<u8>) -> Seq<u8>;

/// The canonical compressed form of the sum of two points.
pub uninterp spec fn point_add_of(a: Seq<u8>, b: Seq<u8>) -> Seq<u8>;

/// The canonical compressed form of the point `p` multiplied by scalar `s`.
pub uninterp spec fn point_mul_of(p: Seq<u8>, s: Seq<u8>) -> Seq<u8>;

/// The canonical compressed form of `s * G`, `G` the fixed generator.
pub uninterp spec fn mul_g_of(s: Seq<u8>) -> Seq<u8>;

/// The canonical 32-byte encoding of the big-endian integer `b` reduced
/// modulo the group order.
pub uninterp spec fn scalar_of_be(b: Seq<u8>) -> Seq<u8>;

/// The canonical encoding of `a + b mod q`.
pub uninterp spec fn scalar_add_of(a: Seq<u8>, b: Seq<u8>) -> Seq<u8>;

/// The canonical encoding of `a - b mod q`.
pub uninterp spec fn scalar_sub_of(a: Seq<u8>, b: Seq<u8>) -> Seq<u8>;

/// The canonical encoding of `a * b mod q`.
pub uninterp spec fn scalar_mul_of(a: Seq<u8>, b: Seq<u8>) -> Seq<u8>;

/// The canonical encoding of the multiplicative inverse of `a` modulo `q`,
/// meaningful only for `a` not congruent to zero.
pub uninterp spec fn scalar_inv_of(a: Seq<u8>) -> Seq<u8>;

/// The scalar the hash-to-scalar function returns on the three byte strings
/// (each hashed as the big-endian integer it denotes).
pub uninterp spec fn hash_to_scalar_of(a: Seq<u8>, b: Seq<u8>, c: Seq<u8>) -> Seq<u8>;

/// The 32-byte commitment digest `H(m || r)` over the big-endian integers
/// the two byte strings denote.
pub uninterp spec fn commit_digest_of(m: Seq<u8>, r: Seq<u8>) -> Seq<u8>;

/// The eight big-endian bytes of a 64-bit integer.
pub open spec fn u64_be(x: u64) -> Seq<u8> {
    seq![
        (x >> 56) as u8,
        (x >> 48) as u8,
        (x >> 40) as u8,
        (x >> 32) as u8,
        (x >> 24) as u8,
        (x >> 16) as u8,
        (x >> 8) as u8,
        x as u8,
    ]
}

/// The scalar a party index denotes: its 64-bit big-endian form reduced
/// into the field.
pub open spec fn index_scalar(i: u64) -> Seq<u8> {
    scalar_of_be(u64_be(i))
}

/// An element of the scalar field Z_q, held as its canonical 32-byte
/// big-endian encoding.
pub struct Scalar {
    b: Vec<u8>,
}

impl View for Scalar {
    type V = Seq<u8>;

    closed spec fn view(&self) -> Seq<u8> {
        self.b@
    }
}

impl Scalar {
    /// Canonical: 32 bytes that re-reduce to themselves.
    pub open spec fn wf(&self) -> bool {
        self@.len() == 32 && scalar_of_be(self@) == self@
    }

    /// The canonical encoding, as a fresh vector.
    pub fn to_vec(&self) -> (r: Vec<u8>)
        ensures
            r@ == self@,
    {
        copy_bytes(&self.b)
    }
}

impl Clone for Scalar {
    fn clone(&self) -> (r: Self)
        ensures
            r@ == self@,
    {
        Scalar { b: copy_bytes(&self.b) }
    }
}

/// A point of the curve group, held as its canonical 33-byte compressed
/// encoding (33 zero bytes for the neutral element).
pub struct Point {
    b: Vec<u8>,
}

impl View for Point {
    type V = Seq<u8>;

    closed spec fn view(&self) -> Seq<u8> {
        self.b@
    }
}

impl Point {
    /// Canonical: the bytes parse to a point that re-serializes to them.
    pub open spec fn wf(&self) -> bool {
        self@.len() == 33 && parse_point_of(self@) == Some(self@)
    }

    /// The canonical compressed encoding, as a fresh vector.
    pub fn to_vec(&self) -> (r: Vec<u8>)
        ensures
            r@ == self@,
    {
        copy_bytes(&self.b)
    }

    /// Byte equality; on canonical forms this is point equality.
    pub fn eq_point(&self, other: &Point) -> (r: bool)
        ensures
            r == (self@ == other@),
    {
        bytes_eq(&self.b, &other.b)
    }
}

impl Clone for Point {
    fn clone(&self) -> (r: Self)
        ensures
            r@ == self@,
    {
        Point { b: copy_bytes(&self.b) }
    }
}

/// A key pair: a secret scalar and the public point `secret * G`.
pub struct KeyPair {
    pub secret: Scalar,
    pub public: Point,
}

impl KeyPair {
    /// The public point belongs to the secret.
    pub open spec fn wf(&self) -> bool {
        &&& self.secret.wf()
        &&& self.public.wf()
        &&& self.public@ == mul_g_of(self.secret@)
    }
}

/// A key pair with a uniformly random secret.
pub fn generate_keypair() -> (r: KeyPair)
    ensures
        r.wf(),
{
    let secret = random_scalar();
    let public = mul_g(&secret);
    KeyPair { secret, public }
}

/// The key pair of an existing secret, given as a big-endian integer of any
/// length (reduced into the field).
pub fn derive_keypair(secret_be: &Vec<u8>) -> (r: KeyPair)
    ensures
        r.wf(),
        r.secret@ == scalar_of_be(secret_be@),
{
    let secret = scalar_from_be(secret_be);
    let public = mul_g(&secret);
    KeyPair { secret, public }
}

/// A fresh copy of a byte vector.
pub fn copy_bytes(v: &Vec<u8>) -> (r: Vec<u8>)
    ensures
        r@ == v@,
{
    let mut out: Vec<u8> = Vec::new();
    let mut i: usize = 0;
    while i < v.len()
        invariant
            i <= v@.len(),
            out@ =~= v@.subrange(0, i as int),
        decreases v@.len() - i,
    {
        out.push(v[i]);
        assert(out@ =~= v@.subrange(0, i + 1 as int));
        i = i + 1;
    }
    assert(v@.subrange(0, v@.len() as int) =~= v@);
    out
}

/// Element-wise equality of two byte vectors.
pub fn bytes_eq(a: &Vec<u8>, b: &Vec<u8>) -> (r: bool)
    ensures
        r == (a@ == b@),
{
    if a.len() != b.len() {
        proof {
            assert(a@.len() != b@.len());
        }
        return false;
    }
    let mut i: usize = 0;
    while i < a.len()
        invariant
            i <= a@.len(),
            a@.len() == b@.len(),
            forall|k: int| 0 <= k < i ==> a@[k] == b@[k],
        decreases a@.len() - i,
    {
        if a[i] != b[i] {
            return false;
        }
        i = i + 1;
    }
    proof {
        assert(a@ =~= b@);
    }
    true
}

/// Relies on `Point::from_bytes` and compressed re-serialization of the
/// curve library: parses 33- or 65-byte SEC1 bytes (all-zero bytes are the
/// neutral element) and returns the canonical compressed form.
#[verifier::external_body]
pub(crate) fn parse_point(bytes: &Vec<u8>) -> (r: Option<Point>)
    ensures
        r is Some <==> parse_point_of(bytes@) is Some,
        r is Some ==> r->0.wf() && Some(r->0@) == parse_point_of(bytes@),
{
    match CPoint::<Secp256k1>::from_bytes(bytes.as_slice()) {
        Ok(p) => Some(Point { b: p.to_bytes(true).to_vec() }),
        Err(_) => None,
    }
}

/// Relies on the curve library's uncompressed serialization; parsing those
/// bytes back yields the same point, and a non-neutral point keeps the
/// standard `4` prefix.
#[verifier::external_body]
pub(crate) fn point_to_uncompressed(p: &Point) -> (r: Vec<u8>)
    requires
        p.wf(),
    ensures
        r@ == uncompressed_of(p@),
        r@.len() == 65,
        parse_point_of(r@) == Some(p@),
        (p@[0] == 2 || p@[0] == 3) ==> r@[0] == 4,
{
    let q = CPoint::<Secp256k1>::from_bytes(p.b.as_slice()).unwrap();
    q.to_bytes(false).to_vec()
}

/// Relies on the curve library's point addition, total on the group with
/// the neutral element included.
#[verifier::external_body]
pub(crate) fn point_add(a: &Point, b: &Point) -> (r: Point)
    requires
        a.wf(),
        b.wf(),
    ensures
        r.wf(),
        r@ == point_add_of(a@, b@),
{
    let x = CPoint::<Secp256k1>::from_bytes(a.b.as_slice()).unwrap();
    let y = CPoint::<Secp256k1>::from_bytes(b.b.as_slice()).unwrap();
    Point { b: (x + y).to_bytes(true).to_vec() }
}

/// Relies on the curve library's scalar multiplication of a point.
#[verifier::external_body]
pub(crate) fn point_mul(p: &Point, s: &Scalar) -> (r: Point)
    requires
        p.wf(),
        s.wf(),
    ensures
        r.wf(),
        r@ == point_mul_of(p@, s@),
{
    let x = CPoint::<Secp256k1>::from_bytes(p.b.as_slice()).unwrap();
    let y = CScalar::<Secp256k1>::from_bigint(&BigInt::from_bytes(s.b.as_slice()));
    Point { b: (x * y).to_bytes(true).to_vec() }
}

/// Relies on the curve library's fixed-base multiplication by the
/// generator `G`.
#[verifier::external_body]
pub(crate) fn mul_g(s: &Scalar) -> (r: Point)
    requires
        s.wf(),
    ensures
        r.wf(),
        r@ == mul_g_of(s@),
{
    let y = CScalar::<Secp256k1>::from_bigint(&BigInt::from_bytes(s.b.as_slice()));
    Point { b: (CPoint::<Secp256k1>::generator() * y).to_bytes(true).to_vec() }
}

/// Relies on `Scalar::from_bigint`: reduces a big-endian integer of any
/// length modulo the group order and serializes it canonically.
#[verifier::external_body]
pub fn scalar_from_be(bytes: &Vec<u8>) -> (r: Scalar)
    ensures
        r.wf(),
        r@ == scalar_of_be(bytes@),
{
    let x = CScalar::<Secp256k1>::from_bigint(&BigInt::from_bytes(bytes.as_slice()));
    Scalar { b: x.to_bytes().to_vec() }
}

/// The party index `i` as a field scalar.
pub fn scalar_from_index(i: usize) -> (r: Scalar)
    ensures
        r.wf(),
        r@ == index_scalar(i as u64),
{
    let x = i as u64;
    let mut b: Vec<u8> = Vec::new();
    b.push((x >> 56) as u8);
    b.push((x >> 48) as u8);
    b.push((x >> 40) as u8);
    b.push((x >> 32) as u8);
    b.push((x >> 24) as u8);
    b.push((x >> 16) as u8);
    b.push((x >> 8) as u8);
    b.push(x as u8);
    proof {
        assert(b@ =~= u64_be(x));
    }
    scalar_from_be(&b)
}

/// Relies on the curve library's field addition modulo the group order.
#[verifier::external_body]
pub(crate) fn scalar_add(a: &Scalar, b: &Scalar) -> (r: Scalar)
    requires
        a.wf(),
        b.wf(),
    ensures
        r.wf(),
        r@ == scalar_add_of(a@, b@),
{
    let x = CScalar::<Secp256k1>::from_bigint(&BigInt::from_bytes(a.b.as_slice()));
    let y = CScalar::<Secp256k1>::from_bigint(&BigInt::from_bytes(b.b.as_slice()));
    Scalar { b: (x + y).to_bytes().to_vec() }
}

/// Relies on the curve library's field subtraction modulo the group order.
#[verifier::external_body]
pub(crate) fn scalar_sub(a: &Scalar, b: &Scalar) -> (r: Scalar)
    requires
        a.wf(),
        b.wf(),
    ensures
        r.wf(),
        r@ == scalar_sub_of(a@, b@),
{
    let x = CScalar::<Secp256k1>::from_bigint(&BigInt::from_bytes(a.b.as_slice()));
    let y = CScalar::<Secp256k1>::from_bigint(&BigInt::from_bytes(b.b.as_slice()));
    Scalar { b: (x - y).to_bytes().to_vec() }
}

/// Relies on the curve library's field multiplication modulo the group
/// order.
#[verifier::external_body]
pub(crate) fn scalar_mul(a: &Scalar, b: &Scalar) -> (r: Scalar)
    requires
        a.wf(),
        b.wf(),
    ensures
        r.wf(),
        r@ == scalar_mul_of(a@, b@),
{
    let x = CScalar::<Secp256k1>::from_bigint(&BigInt::from_bytes(a.b.as_slice()));
    let y = CScalar::<Secp256k1>::from_bigint(&BigInt::from_bytes(b.b.as_slice()));
    Scalar { b: (x * y).to_bytes().to_vec() }
}

/// Relies on `Scalar::invert`: the inverse exists exactly for scalars not
/// congruent to zero (the group order is prime).
#[verifier::external_body]
pub(crate) fn scalar_invert(a: &Scalar) -> (r: Option<Scalar>)
    requires
        a.wf(),
    ensures
        r is Some <==> a@ != zero_bytes(32),
        r is Some ==> r->0.wf() && r->0@ == scalar_inv_of(a@),
{
    let x = CScalar::<Secp256k1>::from_bigint(&BigInt::from_bytes(a.b.as_slice()));
    x.invert().map(|i| Scalar { b: i.to_bytes().to_vec() })
}

/// Relies on `Scalar::random`: a uniformly random non-zero scalar. Nothing
/// is assumed of the value beyond well-formedness.
#[verifier::external_body]
pub fn random_scalar() -> (r: Scalar)
    ensures
        r.wf(),
{
    Scalar { b: CScalar::<Secp256k1>::random().to_bytes().to_vec() }
}

/// Relies on `BigInt::sample`: 256 uniformly random bits, padded to 32
/// bytes. Nothing is assumed of the value.
#[verifier::external_body]
pub fn sample_blind() -> (r: Vec<u8>)
    ensures
        r@.len() == 32,
{
    let n = BigInt::sample(256);
    n.to_bytes_array::<32>().unwrap().to_vec()
}

/// Relies on `DigestExt::chain_bigint` and `result_scalar` over SHA-256:
/// the three byte strings are hashed as the big-endian integers they
/// denote and the digest is reduced to a scalar; the result depends on the
/// inputs alone.
#[verifier::external_body]
pub(crate) fn hash_to_scalar(a: &Vec<u8>, b: &Vec<u8>, c: &Vec<u8>) -> (r: Scalar)
    ensures
        r.wf(),
        r@ == hash_to_scalar_of(a@, b@, c@),
{
    let d = sha2::Sha256::new()
        .chain_bigint(&BigInt::from_bytes(a.as_slice()))
        .chain_bigint(&BigInt::from_bytes(b.as_slice()))
        .chain_bigint(&BigInt::from_bytes(c.as_slice()));
    let s: CScalar<Secp256k1> = d.result_scalar();
    Scalar { b: s.to_bytes().to_vec() }
}

/// Relies on `HashCommitment::create_commitment_with_user_defined_randomness`
/// over SHA-256: the digest `H(m || r)` of the two big-endian integers; the
/// result depends on the inputs alone and fits 32 bytes.
#[verifier::external_body]
pub(crate) fn hash_commit(m: &Vec<u8>, r: &Vec<u8>) -> (d: Vec<u8>)
    ensures
        d@.len() == 32,
        d@ == commit_digest_of(m@, r@),
{
    let mb = BigInt::from_bytes(m.as_slice());
    let rb = BigInt::from_bytes(r.as_slice());
    let c = HashCommitment::<sha2::Sha256>::create_commitment_with_user_defined_randomness(&mb, &rb);
    c.to_bytes_array::<32>().unwrap().to_vec()
}

} // verus!
