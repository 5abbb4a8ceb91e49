use multi_party_schnorr::codec::{bigint2bytes, bytes2bigint};
use multi_party_schnorr::curve::derive_keypair;
use multi_party_schnorr::errors::SchnorrError;
use multi_party_schnorr::point_codec::{
    bytes2point, decode_public_bytes, encode_point_compressed, encode_point_uncompressed,
};

fn hex_to_bytes(s: &str) -> Vec<u8> {
    let digits: Vec<u8> = s
        .bytes()
        .map(|c| match c {
            b'0'..=b'9' => c - b'0',
            b'a'..=b'f' => c - b'a' + 10,
            b'A'..=b'F' => c - b'A' + 10,
            _ => panic!("bad hex digit"),
        })
        .collect();
    digits.chunks(2).map(|p| (p[0] << 4) | p[1]).collect()
}

const G_HEX: &str = "0279be667ef9dcbbac55a06295ce870b07029bfcdb2dce28d959f2815b16f81798";

#[test]
fn scalar_codec_round_trip() {
    let v = vec![1u8, 2, 3];
    let enc = bigint2bytes(&v).unwrap();
    assert_eq!(enc.len(), 32);
    assert_eq!(&enc[..29], &[0u8; 29][..]);
    assert_eq!(&enc[29..], &[1u8, 2, 3][..]);
    assert_eq!(bytes2bigint(&enc), v);
}

#[test]
fn scalar_codec_full_width() {
    let v: Vec<u8> = (1..=32u8).collect();
    let enc = bigint2bytes(&v).unwrap();
    assert_eq!(enc, v);
    assert_eq!(bytes2bigint(&enc), v);
}

#[test]
fn scalar_codec_overflow() {
    let v = vec![1u8; 33];
    assert_eq!(bigint2bytes(&v), Err(SchnorrError::Overflow));
}

#[test]
fn scalar_decode_strips_leading_zeros() {
    assert_eq!(bytes2bigint(&vec![0u8, 0, 5]), vec![5u8]);
    assert_eq!(bytes2bigint(&vec![0u8, 0, 0]), Vec::<u8>::new());
}

#[test]
fn prefix_classification() {
    for (prefix, expect) in [
        (2u8, Some((false, 2u8))),
        (3, Some((false, 3))),
        (4, Some((false, 4))),
        (5, Some((true, 2))),
        (6, Some((true, 3))),
        (7, Some((true, 4))),
        (1, None),
        (8, None),
    ] {
        let bytes = vec![prefix, 0, 0];
        match expect {
            Some(pair) => assert_eq!(decode_public_bytes(&bytes), Ok(pair)),
            None => assert_eq!(
                decode_public_bytes(&bytes),
                Err(SchnorrError::InvalidPublicKeyEncoding)
            ),
        }
    }
    assert_eq!(
        decode_public_bytes(&Vec::new()),
        Err(SchnorrError::InvalidPublicKeyEncoding)
    );
}

#[test]
fn generator_has_known_encoding() {
    let kp = derive_keypair(&vec![1u8]);
    assert_eq!(kp.public.to_vec(), hex_to_bytes(G_HEX));
}

#[test]
fn point_round_trip_compressed() {
    let kp = derive_keypair(&vec![42u8]);
    let bytes = encode_point_compressed(&kp.public, false).unwrap();
    let (tagged, p) = bytes2point(&bytes).unwrap();
    assert!(!tagged);
    assert!(p.eq_point(&kp.public));
}

#[test]
fn point_round_trip_tagged() {
    let kp = derive_keypair(&vec![42u8]);
    let plain = encode_point_compressed(&kp.public, false).unwrap();
    let tagged_bytes = encode_point_compressed(&kp.public, true).unwrap();
    assert_eq!(tagged_bytes[0], plain[0] + 3);
    assert_eq!(&tagged_bytes[1..], &plain[1..]);
    let (tagged, p) = bytes2point(&tagged_bytes).unwrap();
    assert!(tagged);
    assert!(p.eq_point(&kp.public));
}

#[test]
fn point_round_trip_uncompressed() {
    let kp = derive_keypair(&vec![42u8]);
    let bytes = encode_point_uncompressed(&kp.public);
    assert_eq!(bytes.len(), 65);
    assert_eq!(bytes[0], 4);
    let (tagged, p) = bytes2point(&bytes).unwrap();
    assert!(!tagged);
    assert!(p.eq_point(&kp.public));
}

#[test]
fn tagged_decode_matches_untagged() {
    let kp = derive_keypair(&vec![7u8, 7]);
    let mut tagged_bytes = kp.public.to_vec();
    tagged_bytes[0] += 3;
    let (tag1, p1) = bytes2point(&kp.public.to_vec()).unwrap();
    let (tag2, p2) = bytes2point(&tagged_bytes).unwrap();
    assert!(!tag1);
    assert!(tag2);
    assert!(p1.eq_point(&p2));
}

#[test]
fn point_decode_rejects_bad_length() {
    let kp = derive_keypair(&vec![9u8]);
    let mut bytes = kp.public.to_vec();
    bytes.push(0);
    assert!(matches!(
        bytes2point(&bytes),
        Err(SchnorrError::InvalidPublicKeyEncoding)
    ));
    // A 65-byte string needs the uncompressed prefix 4.
    let long = {
        let mut v = vec![2u8];
        v.extend(vec![1u8; 64]);
        v
    };
    assert!(matches!(
        bytes2point(&long),
        Err(SchnorrError::InvalidPublicKeyEncoding)
    ));
}

#[test]
fn point_decode_rejects_off_curve() {
    // x beyond the field prime cannot be a point's coordinate.
    let mut bytes = vec![2u8];
    bytes.extend(vec![0xffu8; 32]);
    assert!(matches!(bytes2point(&bytes), Err(SchnorrError::InvalidPoint)));
}
