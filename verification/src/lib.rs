//! A Schnorr signature scheme over the prime-order Ristretto group.
//!
//! The library provides key generation, signing, and verification, together
//! with canonical byte encodings for group elements, scalars, and signatures.
//! Group arithmetic and hashing are performed by `curve25519_dalek` and `sha2`
//! behind a small trusted layer; everything built on top of that layer is
//! verified, and the central protocol laws (a signature verifies under the
//! matching public key, a verifying response is unique, a separating challenge
//! rejects a wrong key) are proved.

use vstd::prelude::*;

pub mod codec;
pub mod group;
pub mod hash;
pub mod math;
pub mod protocol;

pub use codec::{decode_point, decode_scalar, encode_point, encode_scalar};
pub use codec::{signature_from_bytes, signature_to_bytes};
pub use hash::challenge;
pub use protocol::{keygen, random_scalar, sign, verify, KeyPair, Signature};

verus! {

/// The failures the library can surface.
///
/// A signature that merely does not check out is reported by `verify` as a
/// plain `false`, never as one of these.
#[derive(Clone, Copy, Debug, PartialEq, Eq)]
pub enum Error {
    /// The operating system's secure random source was unavailable.
    InsufficientEntropy,
    /// A byte string is not the canonical encoding of a scalar or group element.
    InvalidEncoding,
}

} // verus!
