//! The challenge hash.
//!
//! A challenge binds a signature to both the message and the commitment
//! point: it is the SHA-512 digest of the message followed by the canonical
//! encoding of the commitment, reduced modulo the group order. The 512-bit
//! digest is more than twice as wide as the order, so the wide reduction is
//! free of the bias a naive truncation would carry.

use crate::group::{point_compress, point_encoding, point_log, scalar_from_wide, scalar_value, wide_reduce};
use crate::math::group_order;
use sha2::Digest;
use vstd::prelude::*;

verus! {

/// The SHA-512 digest of a byte string; names what `Sha512::digest` returns.
pub uninterp spec fn sha512_digest(data: Seq<u8>) -> Seq<u8>;

/// Relies on `sha2::Sha512::digest`: the 64-byte SHA-512 digest, a function
/// of the input bytes alone.
#[verifier::external_body]
pub(crate) fn sha512(data: &[u8]) -> (r: Vec<u8>)
    ensures
        r@ == sha512_digest(data@),
        r@.len() == 64,
{
    sha2::Sha512::digest(data).to_vec()
}

/// The challenge scalar for a message signed under a commitment whose
/// discrete logarithm is `r_log`: the wide reduction of the SHA-512 digest
/// of the message followed by the commitment's canonical encoding. A
/// function of its two arguments alone, which is what lets `verify`
/// recompute the very challenge `sign` used.
pub open spec fn spec_challenge(m: Seq<u8>, r_log: nat) -> nat {
    wide_reduce(sha512_digest(m + point_encoding(r_log)))
}

/// Concatenation of two byte strings.
pub(crate) fn concat_bytes(a: &[u8], b: &[u8]) -> (r: Vec<u8>)
    ensures
        r@ == a@ + b@,
{
    let mut r: Vec<u8> = Vec::new();
    let mut i: usize = 0;
    while i < a.len()
        invariant
            i <= a@.len(),
            r@ == a@.subrange(0, i as int),
        decreases a@.len() - i,
    {
        r.push(a[i]);
        i = i + 1;
        proof {
            assert(r@ =~= a@.subrange(0, i as int));
        }
    }
    proof {
        assert(r@ =~= a@);
    }
    let mut j: usize = 0;
    while j < b.len()
        invariant
            j <= b@.len(),
            r@ == a@ + b@.subrange(0, j as int),
        decreases b@.len() - j,
    {
        r.push(b[j]);
        j = j + 1;
        proof {
            assert(r@ =~= a@ + b@.subrange(0, j as int));
        }
    }
    proof {
        assert(r@ =~= a@ + b@);
    }
    r
}

/// Derive the challenge scalar for `message` under the commitment `r`.
///
/// Identical inputs always yield the identical scalar: the result is pinned
/// to `spec_challenge` of the message and the commitment alone.
pub fn challenge(
    message: &[u8],
    r: &curve25519_dalek::ristretto::RistrettoPoint,
) -> (e: curve25519_dalek::scalar::Scalar)
    ensures
        scalar_value(e) == spec_challenge(message@, point_log(*r)),
        scalar_value(e) < group_order(),
{
    let enc = point_compress(r);
    let data = concat_bytes(message, enc.as_slice());
    let digest = sha512(data.as_slice());
    scalar_from_wide(digest.as_slice())
}

} // verus!
