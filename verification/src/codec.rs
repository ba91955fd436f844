//! Canonical byte encodings.
//!
//! Group elements and scalars travel as fixed-width 32-byte strings: a group
//! element as its canonical Ristretto encoding, a scalar as the little-endian
//! encoding of its reduced value, and a signature as the two laid end to end.
//! Decoding accepts exactly the canonical strings and answers anything else
//! with `InvalidEncoding` — never with a usable value.

use crate::group::{
    point_compress, point_decompress, point_encoding, point_log, scalar_from_canonical,
    scalar_to_bytes, scalar_value,
};
use crate::hash::concat_bytes;
use crate::math::{group_order, le_value};
use crate::protocol::Signature;
use crate::Error;
use vstd::prelude::*;

verus! {

/// Encode a group element as its canonical 32-byte Ristretto encoding.
pub fn encode_point(p: &curve25519_dalek::ristretto::RistrettoPoint) -> (r: Vec<u8>)
    ensures
        r@ == point_encoding(point_log(*p)),
        r@.len() == 32,
{
    point_compress(p)
}

/// Decode a group element from bytes.
///
/// Returns `Ok` exactly when the bytes are the canonical encoding of a group
/// element, and `InvalidEncoding` for every other byte string: a wrong
/// length, a non-canonical form, or no point at all.
pub fn decode_point(bytes: &[u8]) -> (r: Result<
    curve25519_dalek::ristretto::RistrettoPoint,
    Error,
>)
    ensures
        r matches Ok(p) ==> bytes@ == point_encoding(point_log(p)) && point_log(p)
            < group_order(),
        r matches Err(e) ==> e == Error::InvalidEncoding && (forall|k: nat|
            k < group_order() ==> point_encoding(k) != bytes@),
{
    match point_decompress(bytes) {
        Some(p) => Ok(p),
        None => Err(Error::InvalidEncoding),
    }
}

/// Encode a scalar as the canonical little-endian encoding of its reduced
/// value, 32 bytes wide.
pub fn encode_scalar(s: &curve25519_dalek::scalar::Scalar) -> (r: Vec<u8>)
    ensures
        r@.len() == 32,
        le_value(r@) == scalar_value(*s),
        le_value(r@) < group_order(),
{
    scalar_to_bytes(s)
}

/// Decode a scalar from bytes.
///
/// Returns `Ok` exactly when the bytes are 32 bytes whose little-endian
/// value lies below the group order, and `InvalidEncoding` otherwise.
pub fn decode_scalar(bytes: &[u8]) -> (r: Result<curve25519_dalek::scalar::Scalar, Error>)
    ensures
        r matches Ok(s) ==> bytes@.len() == 32 && le_value(bytes@) < group_order()
            && scalar_value(s) == le_value(bytes@),
        r matches Err(e) ==> e == Error::InvalidEncoding && !(bytes@.len() == 32 && le_value(
            bytes@,
        ) < group_order()),
{
    match scalar_from_canonical(bytes) {
        Some(s) => Ok(s),
        None => Err(Error::InvalidEncoding),
    }
}

/// Encode a signature as 64 bytes: the commitment's canonical encoding
/// followed by the response scalar's.
pub fn signature_to_bytes(sig: &Signature) -> (r: Vec<u8>)
    ensures
        r@.len() == 64,
        r@.subrange(0, 32) == point_encoding(point_log(sig.r)),
        le_value(r@.subrange(32, 64)) == scalar_value(sig.s),
{
    let point_bytes = encode_point(&sig.r);
    let scalar_bytes = encode_scalar(&sig.s);
    let r = concat_bytes(point_bytes.as_slice(), scalar_bytes.as_slice());
    proof {
        assert(r@.subrange(0, 32) =~= point_bytes@);
        assert(r@.subrange(32, 64) =~= scalar_bytes@);
    }
    r
}

/// Decode a signature from bytes.
///
/// Returns `Ok` exactly when the input is 64 bytes whose first half is the
/// canonical encoding of a group element and whose second half is a
/// canonical scalar encoding; anything else is `InvalidEncoding`.
pub fn signature_from_bytes(bytes: &[u8]) -> (r: Result<Signature, Error>)
    ensures
        r matches Ok(sig) ==> bytes@.len() == 64 && bytes@.subrange(0, 32) == point_encoding(
            point_log(sig.r),
        ) && point_log(sig.r) < group_order() && scalar_value(sig.s) == le_value(
            bytes@.subrange(32, 64),
        ) && scalar_value(sig.s) < group_order(),
        r matches Err(e) ==> e == Error::InvalidEncoding && (bytes@.len() != 64 || (forall|k: nat|
            k < group_order() ==> point_encoding(k) != bytes@.subrange(0, 32)) || le_value(
            bytes@.subrange(32, 64),
        ) >= group_order()),
{
    if bytes.len() != 64 {
        return Err(Error::InvalidEncoding);
    }
    let commitment = match decode_point(&bytes[0..32]) {
        Ok(p) => p,
        Err(e) => {
            return Err(e);
        },
    };
    let s = match decode_scalar(&bytes[32..64]) {
        Ok(s) => s,
        Err(e) => {
            return Err(e);
        },
    };
    Ok(Signature { r: commitment, s })
}

} // verus!
