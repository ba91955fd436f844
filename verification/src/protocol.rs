//! The Schnorr protocol: key generation, signing, verification, and the laws
//! that tie the three together.
//!
//! A signature on a message `m` is a pair `(R, s)`: a commitment `R = k · G`
//! for a fresh random nonce `k`, and the response `s = k + e · x` modulo the
//! group order, where `x` is the private key and `e` the challenge derived
//! from `m` and `R`. Verification recomputes `e` and accepts exactly when
//! `s · G - e · P == R` for the public key `P`.

use crate::group::{
    point_base_mul, point_eq, point_log, point_mul, point_sub, random_bytes_wide, scalar_add,
    scalar_from_wide, scalar_mul, scalar_value,
};
use crate::hash::{challenge, spec_challenge};
use crate::math::{
    group_order, lemma_mod_add_then_sub, lemma_mod_ops_bounded, lemma_mod_sub_injective, mod_add,
    mod_mul, mod_sub,
};
use crate::Error;
use vstd::arithmetic::div_mod::{lemma_mod_twice, lemma_small_mod};
use vstd::prelude::*;

verus! {

/// A private scalar together with its public group element.
pub struct KeyPair {
    /// The private key: the sole secret of the scheme.
    pub private: curve25519_dalek::scalar::Scalar,
    /// The public key, `private · G`.
    pub public: curve25519_dalek::ristretto::RistrettoPoint,
}

impl KeyPair {
    /// The public key is the basepoint raised to the private key.
    pub open spec fn wf(self) -> bool {
        scalar_value(self.private) < group_order() && point_log(self.public) == scalar_value(
            self.private,
        )
    }
}

/// A Schnorr signature: the commitment point and the response scalar.
pub struct Signature {
    /// The signer's per-message commitment, `nonce · G`.
    pub r: curve25519_dalek::ristretto::RistrettoPoint,
    /// The response binding nonce, challenge, and private key.
    pub s: curve25519_dalek::scalar::Scalar,
}

/// What it means for a commitment logarithm `r_log` and response `s_val` to
/// be a signature on message `m` under the private key `x`: the response is
/// `r_log + challenge · x` modulo the group order.
pub open spec fn is_signature_of(m: Seq<u8>, x: nat, r_log: nat, s_val: nat) -> bool {
    r_log < group_order() && s_val == mod_add(
        r_log as int,
        mod_mul(spec_challenge(m, r_log) as int, x as int),
    )
}

/// The verification equation on the mathematical model: the signature
/// `(r_log, s_val)` on message `m` checks out under a public key with
/// discrete logarithm `pub_log` exactly when
/// `s_val - challenge · pub_log == r_log` modulo the group order.
pub open spec fn schnorr_verify_eq(m: Seq<u8>, r_log: nat, s_val: nat, pub_log: nat) -> bool {
    mod_sub(s_val as int, mod_mul(spec_challenge(m, r_log) as int, pub_log as int)) == r_log
}

/// Sample a uniformly random scalar from the operating system's secure
/// random source, by wide reduction of 64 fresh bytes.
///
/// Fails with `InsufficientEntropy`, and only with it, when that source is
/// unavailable; there is no fallback to a weaker source.
pub fn random_scalar() -> (r: Result<curve25519_dalek::scalar::Scalar, Error>)
    ensures
        r matches Ok(s) ==> scalar_value(s) < group_order(),
        r matches Err(e) ==> e == Error::InsufficientEntropy,
{
    match random_bytes_wide() {
        Some(buf) => Ok(scalar_from_wide(buf.as_slice())),
        None => Err(Error::InsufficientEntropy),
    }
}

/// Generate a key pair: a fresh random private scalar and its public point
/// `private · G`.
pub fn keygen() -> (r: Result<KeyPair, Error>)
    ensures
        r matches Ok(kp) ==> kp.wf(),
        r matches Err(e) ==> e == Error::InsufficientEntropy,
{
    let private = match random_scalar() {
        Ok(s) => s,
        Err(e) => {
            return Err(e);
        },
    };
    let public = point_base_mul(&private);
    proof {
        lemma_small_mod(scalar_value(private), group_order());
    }
    Ok(KeyPair { private, public })
}

/// Sign a message with a private key.
///
/// Draws a fresh random nonce `k`, commits to it with `R = k · G`, and
/// answers the challenge `e = challenge(message, R)` with `s = k + e · x`.
/// On success the returned pair satisfies `is_signature_of` for this message
/// and key; the only failure is `InsufficientEntropy`, when no fresh nonce
/// can be drawn — a stale or derived nonce would forfeit the private key.
pub fn sign(message: &[u8], private_key: &curve25519_dalek::scalar::Scalar) -> (r: Result<
    Signature,
    Error,
>)
    ensures
        r matches Ok(sig) ==> is_signature_of(
            message@,
            scalar_value(*private_key),
            point_log(sig.r),
            scalar_value(sig.s),
        ),
        r matches Err(e) ==> e == Error::InsufficientEntropy,
{
    let nonce = match random_scalar() {
        Ok(s) => s,
        Err(e) => {
            return Err(e);
        },
    };
    let commitment = point_base_mul(&nonce);
    let e = challenge(message, &commitment);
    let product = scalar_mul(&e, private_key);
    let s = scalar_add(&nonce, &product);
    proof {
        lemma_small_mod(scalar_value(nonce), group_order());
    }
    Ok(Signature { r: commitment, s })
}

/// Check a signature on a message against a public key.
///
/// Recomputes the challenge `e` from the message and the signature's
/// commitment and returns exactly the truth of the group equation
/// `s · G - e · P == R`; a mismatch is an ordinary `false`, never an error.
/// The function is pure: the result is pinned to `schnorr_verify_eq` of the
/// inputs alone, so repeated calls on equal inputs agree.
pub fn verify(
    message: &[u8],
    signature: &Signature,
    public_key: &curve25519_dalek::ristretto::RistrettoPoint,
) -> (r: bool)
    ensures
        r == schnorr_verify_eq(
            message@,
            point_log(signature.r),
            scalar_value(signature.s),
            point_log(*public_key),
        ),
{
    let e = challenge(message, &signature.r);
    let lhs = point_base_mul(&signature.s);
    let shift = point_mul(&e, public_key);
    let recomputed = point_sub(&lhs, &shift);
    proof {
        lemma_mod_twice(scalar_value(signature.s) as int, group_order() as int);
    }
    point_eq(&recomputed, &signature.r)
}

/// Round trip: a signature produced with private key `x` satisfies the
/// verification equation under the matching public key, whose discrete
/// logarithm is `x` itself.
pub proof fn lemma_round_trip(m: Seq<u8>, x: nat, r_log: nat, s_val: nat)
    requires
        is_signature_of(m, x, r_log, s_val),
    ensures
        schnorr_verify_eq(m, r_log, s_val, x),
{
    let e = spec_challenge(m, r_log) as int;
    lemma_mod_ops_bounded(e, x as int);
    lemma_mod_add_then_sub(r_log as int, mod_mul(e, x as int), mod_mul(e, x as int));
}

/// Wrong key: a signature made with private key `x` fails the verification
/// equation under a public key with logarithm `y` whenever the challenge
/// separates the two keys, that is, `e · x != e · y` modulo the group order.
/// Because the order is prime, that separation fails for distinct reduced
/// `x` and `y` only in the degenerate case `e == 0`; the premise takes it as
/// given rather than re-deriving primality.
pub proof fn lemma_wrong_key(m: Seq<u8>, x: nat, y: nat, r_log: nat, s_val: nat)
    requires
        is_signature_of(m, x, r_log, s_val),
        mod_mul(spec_challenge(m, r_log) as int, x as int) != mod_mul(
            spec_challenge(m, r_log) as int,
            y as int,
        ),
    ensures
        !schnorr_verify_eq(m, r_log, s_val, y),
{
    let e = spec_challenge(m, r_log) as int;
    lemma_mod_ops_bounded(e, x as int);
    lemma_mod_ops_bounded(e, y as int);
    lemma_mod_add_then_sub(r_log as int, mod_mul(e, x as int), mod_mul(e, y as int));
}

/// Tamper sensitivity of the response: with the message, commitment, and
/// public key fixed, at most one reduced response satisfies the verification
/// equation, so any change to a verifying response is rejected.
pub proof fn lemma_tampered_response_rejected(m: Seq<u8>, r_log: nat, y: nat, s1: nat, s2: nat)
    requires
        s1 < group_order(),
        s2 < group_order(),
        s1 != s2,
        schnorr_verify_eq(m, r_log, s1, y),
    ensures
        !schnorr_verify_eq(m, r_log, s2, y),
{
    let t = mod_mul(spec_challenge(m, r_log) as int, y as int);
    if schnorr_verify_eq(m, r_log, s2, y) {
        lemma_mod_sub_injective(s1 as int, s2 as int, t);
    }
}

/// Determinism of the challenge: the challenge scalar is a function of the
/// message and the commitment alone, so identical inputs yield the identical
/// challenge.
pub proof fn lemma_challenge_deterministic(m1: Seq<u8>, r1: nat, m2: Seq<u8>, r2: nat)
    requires
        m1 == m2,
        r1 == r2,
    ensures
        spec_challenge(m1, r1) == spec_challenge(m2, r2),
{
}

} // verus!
