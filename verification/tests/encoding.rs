use curve25519_dalek::constants::RISTRETTO_BASEPOINT_POINT;
use schnorr::{decode_point, decode_scalar, encode_point, encode_scalar, keygen, sign,
    signature_from_bytes, signature_to_bytes, verify, Error};

/// The group order, as 32 little-endian bytes.
const ORDER_BYTES: [u8; 32] = [
    0xed, 0xd3, 0xf5, 0x5c, 0x1a, 0x63, 0x12, 0x58, 0xd6, 0x9c, 0xf7, 0xa2, 0xde, 0xf9, 0xde,
    0x14, 0x00, 0x00, 0x00, 0x00, 0x00, 0x00, 0x00, 0x00, 0x00, 0x00, 0x00, 0x00, 0x00, 0x00,
    0x00, 0x10,
];

#[test]
fn point_round_trips_through_bytes() {
    let kp = keygen().unwrap();
    let bytes = encode_point(&kp.public);
    assert_eq!(bytes.len(), 32);
    let decoded = decode_point(bytes.as_slice()).unwrap();
    assert_eq!(encode_point(&decoded), bytes);
}

#[test]
fn point_encoding_matches_reference() {
    let basepoint_bytes = RISTRETTO_BASEPOINT_POINT.compress().as_bytes().to_vec();
    let decoded = decode_point(basepoint_bytes.as_slice()).unwrap();
    assert_eq!(encode_point(&decoded), basepoint_bytes);
}

#[test]
fn point_decode_rejects_wrong_length() {
    assert_eq!(decode_point(&[]).err(), Some(Error::InvalidEncoding));
    assert_eq!(decode_point(&[0u8; 31]).err(), Some(Error::InvalidEncoding));
    assert_eq!(decode_point(&[0u8; 33]).err(), Some(Error::InvalidEncoding));
}

#[test]
fn point_decode_rejects_invalid_bytes() {
    assert_eq!(decode_point(&[0xffu8; 32]).err(), Some(Error::InvalidEncoding));
}

#[test]
fn point_decode_rejects_non_canonical_field_element() {
    // the field prime itself, little-endian: a non-canonical encoding of zero
    let mut bytes = [0xffu8; 32];
    bytes[0] = 0xed;
    bytes[31] = 0x7f;
    assert_eq!(decode_point(&bytes).err(), Some(Error::InvalidEncoding));
}

#[test]
fn scalar_round_trips_through_bytes() {
    let kp = keygen().unwrap();
    let bytes = encode_scalar(&kp.private);
    assert_eq!(bytes.len(), 32);
    let decoded = decode_scalar(bytes.as_slice()).unwrap();
    assert_eq!(encode_scalar(&decoded), bytes);
}

#[test]
fn scalar_decode_accepts_canonical_values() {
    let mut one = [0u8; 32];
    one[0] = 1;
    let s = decode_scalar(&one).unwrap();
    assert_eq!(encode_scalar(&s), one.to_vec());

    let mut largest = ORDER_BYTES;
    largest[0] -= 1;
    let s = decode_scalar(&largest).unwrap();
    assert_eq!(encode_scalar(&s), largest.to_vec());
}

#[test]
fn scalar_decode_rejects_wrong_length() {
    assert_eq!(decode_scalar(&[]).err(), Some(Error::InvalidEncoding));
    assert_eq!(decode_scalar(&[0u8; 31]).err(), Some(Error::InvalidEncoding));
    assert_eq!(decode_scalar(&[0u8; 33]).err(), Some(Error::InvalidEncoding));
}

#[test]
fn scalar_decode_rejects_values_at_or_above_order() {
    assert_eq!(decode_scalar(&ORDER_BYTES).err(), Some(Error::InvalidEncoding));
    assert_eq!(decode_scalar(&[0xffu8; 32]).err(), Some(Error::InvalidEncoding));
    let mut high_bit = [0u8; 32];
    high_bit[31] = 0x80;
    assert_eq!(decode_scalar(&high_bit).err(), Some(Error::InvalidEncoding));
}

#[test]
fn signature_round_trips_through_bytes() {
    let kp = keygen().unwrap();
    let message = b"serialize me";
    let signature = sign(message.as_slice(), &kp.private).unwrap();
    let bytes = signature_to_bytes(&signature);
    assert_eq!(bytes.len(), 64);
    let decoded = signature_from_bytes(bytes.as_slice()).unwrap();
    assert_eq!(signature_to_bytes(&decoded), bytes);
    assert!(verify(message.as_slice(), &decoded, &kp.public));
}

#[test]
fn signature_decode_rejects_malformed_bytes() {
    let kp = keygen().unwrap();
    let signature = sign(b"whole".as_slice(), &kp.private).unwrap();
    let bytes = signature_to_bytes(&signature);

    assert!(signature_from_bytes(&bytes[..63]).is_err());
    let mut long = bytes.clone();
    long.push(0);
    assert!(signature_from_bytes(long.as_slice()).is_err());

    let mut bad_point = bytes.clone();
    bad_point[..32].copy_from_slice(&[0xffu8; 32]);
    assert_eq!(
        signature_from_bytes(bad_point.as_slice()).err(),
        Some(Error::InvalidEncoding)
    );

    let mut bad_scalar = bytes.clone();
    bad_scalar[32..].copy_from_slice(&ORDER_BYTES);
    assert_eq!(
        signature_from_bytes(bad_scalar.as_slice()).err(),
        Some(Error::InvalidEncoding)
    );
}
