//! Fixed-width big-endian scalar codec.
//!
//! A scalar crosses the wire as exactly 32 big-endian bytes, zero-padded on
//! the left. The unpadded side is a minimal big-endian magnitude (no leading
//! zero byte); a magnitude needing more than 32 bytes cannot be encoded.

use crate::errors::SchnorrError;
use vstd::prelude::*;

verus! {

/// The integer a big-endian byte string denotes.
pub open spec fn be_val(s: Seq<u8>) -> nat
    decreases s.len(),
{
    if s.len() == 0 {
        0
    } else {
        be_val(s.drop_last()) * 256 + s.last() as nat
    }
}

/// A run of `k` zero bytes.
pub open spec fn zero_bytes(k: nat) -> Seq<u8> {
    Seq::new(k, |i: int| 0u8)
}

/// `s` with its leading zero bytes removed: the minimal big-endian form.
pub open spec fn strip_leading_zeros(s: Seq<u8>) -> Seq<u8>
    decreases s.len(),
{
    if s.len() == 0 || s[0] != 0 {
        s
    } else {
        strip_leading_zeros(s.subrange(1, s.len() as int))
    }
}

/// A run of zero bytes denotes zero.
proof fn lemma_zero_bytes_val(k: nat)
    ensures
        be_val(zero_bytes(k)) == 0,
    decreases k,
{
    if k > 0 {
        assert(zero_bytes(k).drop_last() =~= zero_bytes((k - 1) as nat));
        lemma_zero_bytes_val((k - 1) as nat);
    }
}

/// Left-padding with zero bytes does not change the denoted integer.
pub proof fn lemma_pad_preserves_val(k: nat, s: Seq<u8>)
    ensures
        be_val(zero_bytes(k).add(s)) == be_val(s),
    decreases s.len(),
{
    if s.len() == 0 {
        assert(zero_bytes(k).add(s) =~= zero_bytes(k));
        lemma_zero_bytes_val(k);
    } else {
        assert(zero_bytes(k).add(s).drop_last() =~= zero_bytes(k).add(s.drop_last()));
        lemma_pad_preserves_val(k, s.drop_last());
    }
}

/// Stripping leading zero bytes does not change the denoted integer.
pub proof fn lemma_strip_preserves_val(s: Seq<u8>)
    ensures
        be_val(strip_leading_zeros(s)) == be_val(s),
    decreases s.len(),
{
    if s.len() > 0 && s[0] == 0 {
        let t = s.subrange(1, s.len() as int);
        lemma_strip_preserves_val(t);
        assert(s =~= zero_bytes(1).add(t));
        lemma_pad_preserves_val(1, t);
    }
}

/// Encodes a minimal big-endian magnitude as exactly 32 bytes, zero-padded
/// on the left; fails when the magnitude needs more than 32 bytes.
pub fn bigint2bytes(mag: &Vec<u8>) -> (r: Result<Vec<u8>, SchnorrError>)
    ensures
        mag@.len() > 32 <==> r is Err,
        r is Err ==> r->Err_0 == SchnorrError::Overflow,
        r is Ok ==> r->Ok_0@ =~= zero_bytes((32 - mag@.len()) as nat).add(mag@),
        r is Ok ==> r->Ok_0@.len() == 32 && be_val(r->Ok_0@) == be_val(mag@),
{
    if 32 < mag.len() {
        return Err(SchnorrError::Overflow);
    }
    let pad: usize = 32 - mag.len();
    let mut bytes: Vec<u8> = Vec::new();
    let mut i: usize = 0;
    while i < pad
        invariant
            i <= pad,
            bytes@ =~= zero_bytes(i as nat),
        decreases pad - i,
    {
        bytes.push(0u8);
        assert(bytes@ =~= zero_bytes((i + 1) as nat));
        i = i + 1;
    }
    let mut j: usize = 0;
    while j < mag.len()
        invariant
            j <= mag@.len(),
            bytes@ =~= zero_bytes(pad as nat).add(mag@.subrange(0, j as int)),
        decreases mag@.len() - j,
    {
        bytes.push(mag[j]);
        assert(bytes@ =~= zero_bytes(pad as nat).add(mag@.subrange(0, j + 1 as int)));
        j = j + 1;
    }
    assert(mag@.subrange(0, mag@.len() as int) =~= mag@);
    proof {
        lemma_pad_preserves_val(pad as nat, mag@);
    }
    Ok(bytes)
}

/// Decodes a big-endian byte string back to its minimal magnitude by
/// removing leading zero bytes.
pub fn bytes2bigint(bytes: &Vec<u8>) -> (r: Vec<u8>)
    ensures
        r@ =~= strip_leading_zeros(bytes@),
        be_val(r@) == be_val(bytes@),
{
    let mut i: usize = 0;
    while i < bytes.len() && bytes[i] == 0
        invariant
            i <= bytes@.len(),
            forall|k: int| 0 <= k < i ==> bytes@[k] == 0,
        decreases bytes@.len() - i,
    {
        i = i + 1;
    }
    let mut out: Vec<u8> = Vec::new();
    let mut j: usize = i;
    while j < bytes.len()
        invariant
            i <= j <= bytes@.len(),
            out@ =~= bytes@.subrange(i as int, j as int),
        decreases bytes@.len() - j,
    {
        out.push(bytes[j]);
        assert(out@ =~= bytes@.subrange(i as int, j + 1 as int));
        j = j + 1;
    }
    proof {
        lemma_strip_prefix(bytes@, i as nat);
        lemma_strip_preserves_val(bytes@);
    }
    out
}

/// Removing exactly the leading zero run is what `strip_leading_zeros` does:
/// if the first `i` bytes are zero and byte `i` (if any) is not, the strip
/// of the whole string is its tail from `i`.
proof fn lemma_strip_prefix(s: Seq<u8>, i: nat)
    requires
        i <= s.len(),
        forall|k: int| 0 <= k < i ==> s[k] == 0,
        i < s.len() ==> s[i as int] != 0,
    ensures
        strip_leading_zeros(s) =~= s.subrange(i as int, s.len() as int),
    decreases i,
{
    if i == 0 {
        assert(s.subrange(0, s.len() as int) =~= s);
    } else {
        let t = s.subrange(1, s.len() as int);
        lemma_strip_prefix(t, (i - 1) as nat);
        assert(t.subrange(i - 1, t.len() as int) =~= s.subrange(i as int, s.len() as int));
    }
}

/// Round trip of the scalar codec: any magnitude of at most 32 bytes,
/// written in minimal form, decodes from its 32-byte encoding to itself,
/// and the encoding denotes the same integer.
pub proof fn lemma_scalar_codec_round_trip(mag: Seq<u8>)
    requires
        mag.len() <= 32,
        mag.len() > 0 ==> mag[0] != 0,
    ensures
        strip_leading_zeros(zero_bytes((32 - mag.len()) as nat).add(mag)) =~= mag,
        be_val(zero_bytes((32 - mag.len()) as nat).add(mag)) == be_val(mag),
{
    let k = (32 - mag.len()) as nat;
    let padded = zero_bytes(k).add(mag);
    assert(forall|j: int| 0 <= j < k ==> padded[j] == 0);
    lemma_strip_prefix(padded, k);
    assert(padded.subrange(k as int, padded.len() as int) =~= mag);
    lemma_pad_preserves_val(k, mag);
}

} // verus!
