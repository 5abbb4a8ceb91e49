//! Point codec: compressed/uncompressed SEC1 encodings with an aggregate
//! tag folded into the prefix byte.
//!
//! | prefix | length | meaning                                   |
//! |--------|--------|-------------------------------------------|
//! | 2, 3   | 33     | compressed, standard key                  |
//! | 4      | 65     | uncompressed, standard key                |
//! | 5, 6   | 33     | compressed, tagged: subtract 3, decode    |
//! | 7      | 65     | uncompressed, tagged                      |
//!
//! Decoding classifies `(is_tagged, normalized_prefix)` from the first byte,
//! rejects any other prefix or a length that does not fit the prefix, and
//! then parses the normalized bytes as a curve point.

use crate::curve;
use crate::curve::{parse_point_of, uncompressed_of, Point};
use crate::errors::SchnorrError;
use vstd::prelude::*;

verus! {

/// The prefix byte with the aggregate tag removed.
pub open spec fn untag_prefix(p: u8) -> u8 {
    if 5 <= p && p <= 7 {
        (p - 3) as u8
    } else {
        p
    }
}

/// Whether the first byte carries the aggregate tag.
pub open spec fn tag_of(b: Seq<u8>) -> bool {
    b.len() > 0 && 5 <= b[0] && b[0] <= 7
}

/// The bytes with the tag removed from the prefix byte.
pub open spec fn normalized_bytes(b: Seq<u8>) -> Seq<u8> {
    if b.len() == 0 {
        b
    } else {
        b.update(0, untag_prefix(b[0]))
    }
}

/// A known prefix whose expected length matches the byte count.
pub open spec fn well_shaped(b: Seq<u8>) -> bool {
    &&& b.len() > 0
    &&& 2 <= b[0] && b[0] <= 7
    &&& {
        let np = untag_prefix(b[0]);
        ||| (np == 2 || np == 3) && b.len() == 33
        ||| np == 4 && b.len() == 65
    }
}

/// What decoding point bytes yields: the tag and the canonical compressed
/// form, or the error naming what was wrong.
pub open spec fn decode_point_spec(b: Seq<u8>) -> Result<(bool, Seq<u8>), SchnorrError> {
    if !well_shaped(b) {
        Err(SchnorrError::InvalidPublicKeyEncoding)
    } else {
        match parse_point_of(normalized_bytes(b)) {
            Some(p) => Ok((tag_of(b), p)),
            None => Err(SchnorrError::InvalidPoint),
        }
    }
}

/// Classifies the first byte as `(is_tagged, normalized_prefix)`; any prefix
/// outside 2..=7, or an empty input, is rejected.
pub fn decode_public_bytes(bytes: &Vec<u8>) -> (r: Result<(bool, u8), SchnorrError>)
    ensures
        r is Ok <==> (bytes@.len() > 0 && 2 <= bytes@[0] && bytes@[0] <= 7),
        r is Ok ==> r->Ok_0.0 == tag_of(bytes@) && r->Ok_0.1 == untag_prefix(bytes@[0]),
        r is Err ==> r->Err_0 == SchnorrError::InvalidPublicKeyEncoding,
{
    if bytes.len() == 0 {
        return Err(SchnorrError::InvalidPublicKeyEncoding);
    }
    let prefix = bytes[0];
    if prefix == 2 || prefix == 3 || prefix == 4 {
        Ok((false, prefix))
    } else if prefix == 5 || prefix == 6 || prefix == 7 {
        Ok((true, prefix - 3))
    } else {
        Err(SchnorrError::InvalidPublicKeyEncoding)
    }
}

/// Decodes point bytes: classifies and removes the tag, checks the length
/// against the prefix, and parses the normalized bytes as a curve point.
pub fn bytes2point(bytes: &Vec<u8>) -> (r: Result<(bool, Point), SchnorrError>)
    ensures
        r is Ok ==> r->Ok_0.1.wf() && decode_point_spec(bytes@) == Ok::<_, SchnorrError>(
            (r->Ok_0.0, r->Ok_0.1@),
        ),
        r is Err ==> decode_point_spec(bytes@) == Err::<(bool, Seq<u8>), _>(r->Err_0),
{
    let (is_tagged, prefix) = match decode_public_bytes(bytes) {
        Ok(t) => t,
        Err(e) => {
            return Err(e);
        },
    };
    let len = bytes.len();
    if !((len == 33 && (prefix == 2 || prefix == 3)) || (len == 65 && prefix == 4)) {
        return Err(SchnorrError::InvalidPublicKeyEncoding);
    }
    let mut norm: Vec<u8> = Vec::new();
    norm.push(prefix);
    let mut i: usize = 1;
    while i < bytes.len()
        invariant
            1 <= i <= bytes@.len(),
            bytes@.len() > 0,
            norm@.len() == i,
            norm@[0] == untag_prefix(bytes@[0]),
            forall|k: int| 1 <= k < i ==> norm@[k] == bytes@[k],
        decreases bytes@.len() - i,
    {
        norm.push(bytes[i]);
        i = i + 1;
    }
    proof {
        assert(norm@ =~= normalized_bytes(bytes@));
    }
    match curve::parse_point(&norm) {
        Some(p) => Ok((is_tagged, p)),
        None => Err(SchnorrError::InvalidPoint),
    }
}

/// Encodes a point compressed, optionally with the aggregate tag added to
/// the prefix. Tagging is defined only for a non-neutral point (prefix 2
/// or 3); the neutral element has no tagged form.
pub fn encode_point_compressed(p: &Point, is_tagged: bool) -> (r: Result<
    Vec<u8>,
    SchnorrError,
>)
    requires
        p.wf(),
    ensures
        !is_tagged ==> r is Ok && r->Ok_0@ == p@,
        is_tagged && (p@[0] == 2 || p@[0] == 3) ==> r is Ok && r->Ok_0@ == p@.update(
            0,
            (p@[0] + 3) as u8,
        ),
        is_tagged && !(p@[0] == 2 || p@[0] == 3) ==> r == Err::<Vec<u8>, _>(
            SchnorrError::InvalidPoint,
        ),
{
    let bytes = p.to_vec();
    if !is_tagged {
        return Ok(bytes);
    }
    let prefix = bytes[0];
    if prefix == 2 || prefix == 3 {
        let mut out: Vec<u8> = Vec::new();
        out.push(prefix + 3);
        let mut i: usize = 1;
        while i < bytes.len()
            invariant
                1 <= i <= bytes@.len(),
                bytes@.len() == 33,
                out@.len() == i,
                out@[0] == bytes@[0] + 3,
                forall|k: int| 1 <= k < i ==> out@[k] == bytes@[k],
            decreases bytes@.len() - i,
        {
            out.push(bytes[i]);
            i = i + 1;
        }
        proof {
            assert(out@ =~= p@.update(0, (p@[0] + 3) as u8));
        }
        Ok(out)
    } else {
        Err(SchnorrError::InvalidPoint)
    }
}

/// Encodes a point in the 65-byte uncompressed form.
pub fn encode_point_uncompressed(p: &Point) -> (r: Vec<u8>)
    requires
        p.wf(),
    ensures
        r@ == uncompressed_of(p@),
        r@.len() == 65,
        parse_point_of(r@) == Some(p@),
        (p@[0] == 2 || p@[0] == 3) ==> r@[0] == 4,
{
    curve::point_to_uncompressed(p)
}

/// Law: a non-neutral point decodes from its own compressed encoding to
/// itself, untagged.
pub proof fn lemma_compressed_round_trip(p: Seq<u8>)
    requires
        p.len() == 33,
        parse_point_of(p) == Some(p),
        p[0] == 2 || p[0] == 3,
    ensures
        decode_point_spec(p) == Ok::<_, SchnorrError>((false, p)),
{
    assert(normalized_bytes(p) =~= p);
}

/// Law: a non-neutral point decodes from its tagged compressed encoding to
/// itself, tagged.
pub proof fn lemma_tagged_round_trip(p: Seq<u8>)
    requires
        p.len() == 33,
        parse_point_of(p) == Some(p),
        p[0] == 2 || p[0] == 3,
    ensures
        decode_point_spec(p.update(0, (p[0] + 3) as u8)) == Ok::<_, SchnorrError>((true, p)),
{
    let t = p.update(0, (p[0] + 3) as u8);
    assert(normalized_bytes(t) =~= p);
}

/// Law: a point decodes from its uncompressed encoding to itself, untagged.
/// The hypotheses are exactly what the uncompressed encoder establishes.
pub proof fn lemma_uncompressed_round_trip(p: Seq<u8>, u: Seq<u8>)
    requires
        u.len() == 65,
        u[0] == 4,
        parse_point_of(u) == Some(p),
    ensures
        decode_point_spec(u) == Ok::<_, SchnorrError>((false, p)),
{
    assert(normalized_bytes(u) =~= u);
}

/// Law: decoding tagged bytes yields exactly what decoding their untagged
/// counterpart yields, with the tag set instead of clear — including the
/// same error when the bytes are rejected.
pub proof fn lemma_tagged_decode_matches_untagged(b: Seq<u8>)
    requires
        tag_of(b),
    ensures
        decode_point_spec(normalized_bytes(b)) matches Ok(up) ==> up.0 == false
            && decode_point_spec(b) == Ok::<_, SchnorrError>((true, up.1)),
        decode_point_spec(normalized_bytes(b)) matches Err(e) ==> decode_point_spec(b) == Err::<
            (bool, Seq<u8>),
            _,
        >(e),
{
    let n = normalized_bytes(b);
    assert(normalized_bytes(n) =~= n);
}

} // verus!
