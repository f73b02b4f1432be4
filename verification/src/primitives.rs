//! Trusted boundary to the cryptographic primitives: the Ristretto group
//! arithmetic and point codec of `curve25519-dalek`, the SHA3-512 and
//! SHAKE-256 hashes of `sha3`, and the constant-time comparison of `subtle`.
//!
//! Every group element travels through this module as its 32-byte canonical
//! compressed encoding, and every scalar as its 32-byte canonical
//! little-endian encoding, so the verified code above only ever handles
//! plain bytes. Each primitive's result is named by an uninterpreted spec
//! function of the input bytes; the contracts of the verified code are
//! stated over those names.

use vstd::prelude::*;

use curve25519_dalek::ristretto::{CompressedRistretto, RistrettoPoint};
use curve25519_dalek::scalar::Scalar;
use rand::{CryptoRng, RngCore};
use sha3::digest::ExtendableOutput;
use sha3::{Digest, Sha3_512, Shake256};
use subtle::ConstantTimeEq;

use crate::all_zero;

verus! {

/// Whether 32 bytes are the canonical compressed encoding of a group element.
pub uninterp spec fn point_valid(p: Seq<u8>) -> bool;

/// The compressed product of the basepoint by the scalar encoded by the
/// argument (reduced modulo the group order).
pub uninterp spec fn base_mul(s: Seq<u8>) -> Seq<u8>;

/// The compressed product of the point encoded by the first argument by the
/// scalar encoded by the second.
pub uninterp spec fn pt_mul(p: Seq<u8>, s: Seq<u8>) -> Seq<u8>;

/// The compressed sum of the points encoded by the two arguments.
pub uninterp spec fn pt_add(p: Seq<u8>, q: Seq<u8>) -> Seq<u8>;

/// The canonical encoding of the sum, modulo the group order, of the scalars
/// encoded by the two arguments.
pub uninterp spec fn sc_add(a: Seq<u8>, b: Seq<u8>) -> Seq<u8>;

/// The canonical encoding of the product, modulo the group order, of the
/// scalars encoded by the two arguments.
pub uninterp spec fn sc_mul(a: Seq<u8>, b: Seq<u8>) -> Seq<u8>;

/// The scalar drawn uniformly from the 512-bit SHA3-512 digest of the input.
pub uninterp spec fn challenge(t: Seq<u8>) -> Seq<u8>;

/// The first `n` bytes of the SHAKE-256 output stream seeded with `seed`.
pub uninterp spec fn xof(seed: Seq<u8>, n: nat) -> Seq<u8>;

/// Relies on `subtle`'s `ConstantTimeEq` for byte slices: `ct_eq` yields 1
/// exactly when the slices hold the same bytes, in time independent of their
/// contents.
#[verifier::external_body]
pub(crate) fn ct_is_zero32(b: &[u8; 32]) -> (r: bool)
    ensures
        r == all_zero(b@),
{
    b.ct_eq(&[0u8; 32]).unwrap_u8() == 1
}

/// Relies on `curve25519-dalek`'s `Scalar::random`: a scalar drawn uniformly
/// modulo the group order from the caller's secure source. Nothing is
/// promised of the value.
#[verifier::external_body]
pub(crate) fn random_scalar_bytes<R: RngCore + CryptoRng>(rng: &mut R) -> (r: [u8; 32])
{
    Scalar::random(rng).to_bytes()
}

/// Relies on `curve25519-dalek`'s `RistrettoPoint::mul_base` and `compress`:
/// fixed-base scalar multiplication, returned in canonical compressed
/// encoding. `compress` returns the canonical encoding of a point, which
/// `decompress` accepts, so the result is a valid encoding.
#[verifier::external_body]
pub(crate) fn base_mul_bytes(s: &[u8; 32]) -> (r: [u8; 32])
    ensures
        r@ == base_mul(s@),
        point_valid(r@),
{
    RistrettoPoint::mul_base(&Scalar::from_bytes_mod_order(*s)).compress().to_bytes()
}

/// Relies on `curve25519-dalek`'s `CompressedRistretto::decompress`: it
/// returns `Some` exactly when the bytes are the canonical encoding of a
/// group element.
#[verifier::external_body]
pub(crate) fn point_valid_check(p: &[u8; 32]) -> (r: bool)
    ensures
        r == point_valid(p@),
{
    CompressedRistretto(*p).decompress().is_some()
}

/// Relies on `curve25519-dalek`'s `CompressedRistretto::decompress` (`None`
/// exactly on a non-canonical encoding), scalar multiplication of a point,
/// and `compress`, whose result is again a canonical encoding.
#[verifier::external_body]
pub(crate) fn point_mul_bytes(p: &[u8; 32], s: &[u8; 32]) -> (r: Option<[u8; 32]>)
    ensures
        r is Some <==> point_valid(p@),
        r matches Some(v) ==> v@ == pt_mul(p@, s@) && point_valid(v@),
{
    match CompressedRistretto(*p).decompress() {
        Some(pt) => Some((pt * Scalar::from_bytes_mod_order(*s)).compress().to_bytes()),
        None => None,
    }
}

/// Relies on `curve25519-dalek`'s `CompressedRistretto::decompress` (`None`
/// exactly on a non-canonical encoding), point addition, and `compress`,
/// whose result is again a canonical encoding.
#[verifier::external_body]
pub(crate) fn point_add_bytes(p: &[u8; 32], q: &[u8; 32]) -> (r: Option<[u8; 32]>)
    ensures
        r is Some <==> (point_valid(p@) && point_valid(q@)),
        r matches Some(v) ==> v@ == pt_add(p@, q@) && point_valid(v@),
{
    match (CompressedRistretto(*p).decompress(), CompressedRistretto(*q).decompress()) {
        (Some(pp), Some(qq)) => Some((pp + qq).compress().to_bytes()),
        _ => None,
    }
}

/// Relies on `curve25519-dalek`'s scalar addition modulo the group order;
/// the operands are read with `Scalar::from_bytes_mod_order` and the sum is
/// returned in canonical encoding, a function of the operand bytes alone.
#[verifier::external_body]
pub(crate) fn scalar_add_bytes(a: &[u8; 32], b: &[u8; 32]) -> (r: [u8; 32])
    ensures
        r@ == sc_add(a@, b@),
{
    (Scalar::from_bytes_mod_order(*a) + Scalar::from_bytes_mod_order(*b)).to_bytes()
}

/// Relies on `curve25519-dalek`'s scalar multiplication modulo the group
/// order; the operands are read with `Scalar::from_bytes_mod_order` and the
/// product is returned in canonical encoding, a function of the operand
/// bytes alone.
#[verifier::external_body]
pub(crate) fn scalar_mul_bytes(a: &[u8; 32], b: &[u8; 32]) -> (r: [u8; 32])
    ensures
        r@ == sc_mul(a@, b@),
{
    (Scalar::from_bytes_mod_order(*a) * Scalar::from_bytes_mod_order(*b)).to_bytes()
}

/// Relies on `sha3`'s `Sha3_512` and `curve25519-dalek`'s
/// `Scalar::from_hash`: the 512-bit digest of the input, reduced to a scalar
/// uniformly modulo the group order; a function of the input bytes alone.
#[verifier::external_body]
pub(crate) fn hash_to_scalar(t: &[u8]) -> (r: [u8; 32])
    ensures
        r@ == challenge(t@),
{
    let mut h = Sha3_512::new();
    Digest::update(&mut h, t);
    Scalar::from_hash(h).to_bytes()
}

/// Relies on `sha3`'s `Shake256`, an extendable-output function:
/// `digest_xof` fills the whole output buffer with bytes that depend on the
/// seed alone.
#[verifier::external_body]
pub(crate) fn xof_bytes(seed: &[u8], out_len: usize) -> (r: Vec<u8>)
    ensures
        r@ == xof(seed@, out_len as nat),
        r@.len() == out_len,
{
    let mut out = vec![0u8; out_len];
    Shake256::digest_xof(seed, out.as_mut_slice());
    out
}

} // verus!
