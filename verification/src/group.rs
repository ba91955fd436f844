//! The prime-order group, behind a trusted layer.
//!
//! `curve25519_dalek`'s `Scalar` and `RistrettoPoint` are opaque to the
//! verifier, so this module gives each a mathematical reading: `scalar_value`
//! is the integer a scalar holds, reduced modulo the group order, and
//! `point_log` is the discrete logarithm of a point with respect to the
//! distinguished basepoint — well defined, and in `[0, group_order())`,
//! because the Ristretto group is cyclic of prime order. Every wrapper's
//! contract is phrased over those two readings and is the whole of what the
//! rest of the library knows about the group.

use crate::math::{group_order, le_value, mod_add, mod_mul, mod_sub};
use rand::RngCore;
use vstd::prelude::*;

verus! {

#[verifier::external_type_specification]
#[verifier::external_body]
pub struct ExScalar(curve25519_dalek::scalar::Scalar);

#[verifier::external_type_specification]
#[verifier::external_body]
pub struct ExRistrettoPoint(curve25519_dalek::ristretto::RistrettoPoint);

/// The integer a scalar holds, in `[0, group_order())`: `curve25519_dalek`
/// keeps every publicly constructible `Scalar` reduced modulo the group
/// order.
pub uninterp spec fn scalar_value(s: curve25519_dalek::scalar::Scalar) -> nat;

/// The discrete logarithm of a point with respect to the Ristretto
/// basepoint, in `[0, group_order())`.
pub uninterp spec fn point_log(p: curve25519_dalek::ristretto::RistrettoPoint) -> nat;

/// The canonical 32-byte Ristretto encoding of the point whose discrete
/// logarithm is `k`; names what `RistrettoPoint::compress` returns.
pub uninterp spec fn point_encoding(k: nat) -> Seq<u8>;

/// The result of reducing 64 little-endian bytes modulo the group order;
/// names what `Scalar::from_bytes_mod_order_wide` returns.
pub uninterp spec fn wide_reduce(b: Seq<u8>) -> nat;

/// Relies on `rand::rngs::OsRng::try_fill_bytes`: fills the buffer from the
/// operating system's secure random source, or reports failure without
/// filling it. Nothing is promised of the bytes themselves.
#[verifier::external_body]
pub(crate) fn random_bytes_wide() -> (r: Option<Vec<u8>>)
    ensures
        r matches Some(v) ==> v@.len() == 64,
{
    let mut buf = [0u8; 64];
    match rand::rngs::OsRng.try_fill_bytes(&mut buf) {
        Ok(()) => Some(buf.to_vec()),
        Err(_) => None,
    }
}

/// Relies on `Scalar::from_bytes_mod_order_wide`: reduces a 512-bit
/// little-endian integer modulo the group order.
#[verifier::external_body]
pub(crate) fn scalar_from_wide(b: &[u8]) -> (r: curve25519_dalek::scalar::Scalar)
    requires
        b@.len() == 64,
    ensures
        scalar_value(r) == wide_reduce(b@),
        scalar_value(r) < group_order(),
{
    let arr: [u8; 64] = b.try_into().unwrap();
    curve25519_dalek::scalar::Scalar::from_bytes_mod_order_wide(&arr)
}

/// Relies on `Scalar::from_canonical_bytes`: accepts exactly the 32-byte
/// little-endian encodings of integers below the group order.
#[verifier::external_body]
pub(crate) fn scalar_from_canonical(b: &[u8]) -> (r: Option<
    curve25519_dalek::scalar::Scalar,
>)
    ensures
        r matches Some(s) ==> scalar_value(s) == le_value(b@),
        r.is_some() <==> (b@.len() == 32 && le_value(b@) < group_order()),
{
    let arr: [u8; 32] = match b.try_into() {
        Ok(a) => a,
        Err(_) => {
            return None;
        },
    };
    Option::from(curve25519_dalek::scalar::Scalar::from_canonical_bytes(arr))
}

/// Relies on `Scalar::to_bytes`: returns the canonical 32-byte little-endian
/// encoding of the (reduced) scalar.
#[verifier::external_body]
pub(crate) fn scalar_to_bytes(s: &curve25519_dalek::scalar::Scalar) -> (r: Vec<u8>)
    ensures
        r@.len() == 32,
        le_value(r@) == scalar_value(*s),
        le_value(r@) < group_order(),
{
    s.to_bytes().to_vec()
}

/// Relies on `Add for Scalar`: addition modulo the group order.
#[verifier::external_body]
pub(crate) fn scalar_add(
    a: &curve25519_dalek::scalar::Scalar,
    b: &curve25519_dalek::scalar::Scalar,
) -> (r: curve25519_dalek::scalar::Scalar)
    ensures
        scalar_value(r) == mod_add(scalar_value(*a) as int, scalar_value(*b) as int),
{
    a + b
}

/// Relies on `Mul for Scalar`: multiplication modulo the group order.
#[verifier::external_body]
pub(crate) fn scalar_mul(
    a: &curve25519_dalek::scalar::Scalar,
    b: &curve25519_dalek::scalar::Scalar,
) -> (r: curve25519_dalek::scalar::Scalar)
    ensures
        scalar_value(r) == mod_mul(scalar_value(*a) as int, scalar_value(*b) as int),
{
    a * b
}

/// Relies on `Mul<&RistrettoPoint> for &Scalar` with
/// `constants::RISTRETTO_BASEPOINT_POINT`: the point `s · G` has discrete
/// logarithm `s` modulo the group order.
#[verifier::external_body]
pub(crate) fn point_base_mul(s: &curve25519_dalek::scalar::Scalar) -> (r:
    curve25519_dalek::ristretto::RistrettoPoint)
    ensures
        point_log(r) == scalar_value(*s) % group_order(),
{
    s * curve25519_dalek::constants::RISTRETTO_BASEPOINT_POINT
}

/// Relies on `Mul<&RistrettoPoint> for &Scalar`: scalar multiplication
/// multiplies discrete logarithms modulo the group order.
#[verifier::external_body]
pub(crate) fn point_mul(
    s: &curve25519_dalek::scalar::Scalar,
    p: &curve25519_dalek::ristretto::RistrettoPoint,
) -> (r: curve25519_dalek::ristretto::RistrettoPoint)
    ensures
        point_log(r) == mod_mul(scalar_value(*s) as int, point_log(*p) as int),
{
    s * p
}

/// Relies on `Sub for RistrettoPoint`: subtraction in the group subtracts
/// discrete logarithms modulo the group order.
#[verifier::external_body]
pub(crate) fn point_sub(
    a: &curve25519_dalek::ristretto::RistrettoPoint,
    b: &curve25519_dalek::ristretto::RistrettoPoint,
) -> (r: curve25519_dalek::ristretto::RistrettoPoint)
    ensures
        point_log(r) == mod_sub(point_log(*a) as int, point_log(*b) as int),
{
    a - b
}

/// Relies on `PartialEq for RistrettoPoint`: exact (constant-time) equality
/// of group elements, which in a cyclic group is equality of discrete
/// logarithms.
#[verifier::external_body]
pub(crate) fn point_eq(
    a: &curve25519_dalek::ristretto::RistrettoPoint,
    b: &curve25519_dalek::ristretto::RistrettoPoint,
) -> (r: bool)
    ensures
        r == (point_log(*a) == point_log(*b)),
{
    a == b
}

/// Relies on `RistrettoPoint::compress`: produces the canonical 32-byte
/// encoding of the point.
#[verifier::external_body]
pub(crate) fn point_compress(p: &curve25519_dalek::ristretto::RistrettoPoint) -> (r: Vec<u8>)
    ensures
        r@ == point_encoding(point_log(*p)),
        r@.len() == 32,
{
    p.compress().to_bytes().to_vec()
}

/// Relies on `CompressedRistretto::{from_slice, decompress}`: decompression
/// succeeds exactly on the canonical encoding of a point, and `from_slice`
/// rejects any input that is not 32 bytes long.
#[verifier::external_body]
pub(crate) fn point_decompress(b: &[u8]) -> (r: Option<
    curve25519_dalek::ristretto::RistrettoPoint,
>)
    ensures
        r matches Some(p) ==> b@ == point_encoding(point_log(p)) && point_log(p) < group_order(),
        r is None ==> forall|k: nat| k < group_order() ==> point_encoding(k) != b@,
{
    match curve25519_dalek::ristretto::CompressedRistretto::from_slice(b) {
        Ok(c) => c.decompress(),
        Err(_) => None,
    }
}

} // verus!
