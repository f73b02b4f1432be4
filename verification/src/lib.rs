//! Two-party authenticated key exchange over the Ristretto prime-order
//! group.
//!
//! Each party holds a long-term key pair (`SecretKey`, `PublicKey`) and
//! generates a fresh ephemeral pair (`EphemeralKey`, `Message`) per
//! exchange; the [`soake`] module then derives, on each side, one shared
//! secret bound to both identities and to the exchanged public material.
//!
//! All key material is handled as fixed 32-byte encodings: canonical
//! little-endian scalars for secret and ephemeral keys, canonical compressed
//! group elements for public keys and messages. Parsing of externally
//! supplied bytes rejects short buffers, the all-zero pattern (checked in
//! constant time), and, for the point-typed material, any bytes that are
//! not the canonical encoding of a group element.

use vstd::prelude::*;

pub mod primitives;
pub mod soake;

use rand::{CryptoRng, RngCore};

verus! {

use crate::primitives::{base_mul, point_valid};
use crate::primitives::{base_mul_bytes, ct_is_zero32, point_valid_check, random_scalar_bytes};

/// Length in bytes of an encoded secret key.
pub const SECRET_LENGTH: usize = 32;

/// Length in bytes of an encoded public key.
pub const PUBLIC_LENGTH: usize = 32;

/// Length in bytes of an encoded message (ephemeral public value).
pub const MESSAGE_LENGTH: usize = 32;

/// How decoding key material fails.
#[derive(Debug, PartialEq, Eq, Structural)]
pub enum Error {
    /// The bytes are not the canonical encoding of a group element.
    Decompress,
    /// The bytes are the all-zero pattern, rejected unconditionally.
    Zero,
    /// Fewer bytes were supplied than the fixed encoding length.
    Length,
}

/// Whether every byte of the sequence is zero.
pub open spec fn all_zero(s: Seq<u8>) -> bool {
    forall|i: int| 0 <= i < s.len() ==> s[i] == 0
}

/// What decoding scalar material returns: the first 32 bytes, unless the
/// buffer is shorter than 32 bytes or those bytes are all zero.
pub open spec fn secret_decode(bytes: Seq<u8>) -> Result<Seq<u8>, Error> {
    if bytes.len() < 32 {
        Err(Error::Length)
    } else if all_zero(bytes.take(32)) {
        Err(Error::Zero)
    } else {
        Ok(bytes.take(32))
    }
}

/// What decoding point material returns: the first 32 bytes, unless the
/// buffer is shorter than 32 bytes, those bytes are all zero, or they are
/// not the canonical encoding of a group element.
pub open spec fn point_decode(bytes: Seq<u8>) -> Result<Seq<u8>, Error> {
    if bytes.len() < 32 {
        Err(Error::Length)
    } else if all_zero(bytes.take(32)) {
        Err(Error::Zero)
    } else if !point_valid(bytes.take(32)) {
        Err(Error::Decompress)
    } else {
        Ok(bytes.take(32))
    }
}

/// A long-term private scalar, as its canonical 32-byte encoding.
pub struct SecretKey {
    pub(crate) bytes: [u8; 32],
}

/// A long-term identity: a compressed group element derived from a
/// `SecretKey`.
pub struct PublicKey {
    pub(crate) bytes: [u8; 32],
}

/// A one-time private scalar, used for a single exchange.
pub struct EphemeralKey {
    pub(crate) bytes: [u8; 32],
}

/// The wire-transmitted ephemeral public value: a compressed group element
/// derived from an `EphemeralKey`.
pub struct Message {
    pub(crate) bytes: [u8; 32],
}

impl View for SecretKey {
    type V = Seq<u8>;

    closed spec fn view(&self) -> Seq<u8> {
        self.bytes@
    }
}

impl View for PublicKey {
    type V = Seq<u8>;

    closed spec fn view(&self) -> Seq<u8> {
        self.bytes@
    }
}

impl View for EphemeralKey {
    type V = Seq<u8>;

    closed spec fn view(&self) -> Seq<u8> {
        self.bytes@
    }
}

impl View for Message {
    type V = Seq<u8>;

    closed spec fn view(&self) -> Seq<u8> {
        self.bytes@
    }
}

/// Copies the first 32 bytes of a buffer into an array.
fn first32(bytes: &[u8]) -> (r: [u8; 32])
    requires
        bytes@.len() >= 32,
    ensures
        r@ == bytes@.take(32),
{
    let mut out: [u8; 32] = [0u8; 32];
    let mut i: usize = 0;
    while i < 32
        invariant
            bytes@.len() >= 32,
            i <= 32,
            forall|j: int| 0 <= j < i ==> out@[j] == bytes@[j],
        decreases 32 - i,
    {
        out[i] = bytes[i];
        i = i + 1;
    }
    proof {
        assert(out@ =~= bytes@.take(32));
    }
    out
}

impl SecretKey {
    /// Draws a fresh secret scalar from the caller's secure random source.
    pub fn generate<R: RngCore + CryptoRng>(rng: &mut R) -> SecretKey {
        SecretKey { bytes: random_scalar_bytes(rng) }
    }

    /// The canonical 32-byte encoding of the key.
    pub fn as_bytes(&self) -> (r: &[u8; 32])
        ensures
            r@ == self@,
    {
        &self.bytes
    }

    /// Parses a secret key from the first 32 bytes of a buffer, rejecting
    /// short buffers and the all-zero pattern (checked in constant time).
    pub fn from_bytes(bytes: &[u8]) -> (r: Result<SecretKey, Error>)
        ensures
            match r {
                Ok(k) => secret_decode(bytes@) == Ok::<Seq<u8>, Error>(k@),
                Err(e) => secret_decode(bytes@) == Err::<Seq<u8>, Error>(e),
            },
    {
        if bytes.len() >= SECRET_LENGTH {
            let sk = first32(bytes);
            if ct_is_zero32(&sk) {
                Err(Error::Zero)
            } else {
                Ok(SecretKey { bytes: sk })
            }
        } else {
            Err(Error::Length)
        }
    }
}

impl PublicKey {
    /// Derives the public key of a secret key: fixed-base scalar
    /// multiplication, in compressed encoding.
    pub fn from_secret(secret: &SecretKey) -> (r: PublicKey)
        ensures
            r@ == base_mul(secret@),
            point_valid(r@),
    {
        PublicKey { bytes: base_mul_bytes(&secret.bytes) }
    }

    /// The canonical 32-byte encoding of the key.
    pub fn as_bytes(&self) -> (r: &[u8; 32])
        ensures
            r@ == self@,
    {
        &self.bytes
    }

    /// Parses a public key from the first 32 bytes of a buffer, rejecting
    /// short buffers, the all-zero pattern (checked in constant time), and
    /// bytes that do not encode a group element.
    pub fn from_bytes(bytes: &[u8]) -> (r: Result<PublicKey, Error>)
        ensures
            match r {
                Ok(k) => point_decode(bytes@) == Ok::<Seq<u8>, Error>(k@) && point_valid(k@),
                Err(e) => point_decode(bytes@) == Err::<Seq<u8>, Error>(e),
            },
    {
        if bytes.len() >= PUBLIC_LENGTH {
            let pk = first32(bytes);
            if ct_is_zero32(&pk) {
                Err(Error::Zero)
            } else if !point_valid_check(&pk) {
                Err(Error::Decompress)
            } else {
                Ok(PublicKey { bytes: pk })
            }
        } else {
            Err(Error::Length)
        }
    }
}

impl EphemeralKey {
    /// Draws a fresh ephemeral scalar from the caller's secure random
    /// source. The key must be used for at most one exchange.
    pub fn generate<R: RngCore + CryptoRng>(rng: &mut R) -> EphemeralKey {
        EphemeralKey { bytes: random_scalar_bytes(rng) }
    }
}

impl Message {
    /// Derives the public value of an ephemeral key: fixed-base scalar
    /// multiplication, in compressed encoding.
    pub fn from_ephemeral(ephemeral: &EphemeralKey) -> (r: Message)
        ensures
            r@ == base_mul(ephemeral@),
            point_valid(r@),
    {
        Message { bytes: base_mul_bytes(&ephemeral.bytes) }
    }

    /// The canonical 32-byte encoding of the message.
    pub fn as_bytes(&self) -> (r: &[u8; 32])
        ensures
            r@ == self@,
    {
        &self.bytes
    }

    /// Parses a message from the first 32 bytes of a buffer, rejecting short
    /// buffers, the all-zero pattern (checked in constant time), and bytes
    /// that do not encode a group element.
    pub fn from_bytes(bytes: &[u8]) -> (r: Result<Message, Error>)
        ensures
            match r {
                Ok(k) => point_decode(bytes@) == Ok::<Seq<u8>, Error>(k@) && point_valid(k@),
                Err(e) => point_decode(bytes@) == Err::<Seq<u8>, Error>(e),
            },
    {
        if bytes.len() >= MESSAGE_LENGTH {
            let msg = first32(bytes);
            if ct_is_zero32(&msg) {
                Err(Error::Zero)
            } else if !point_valid_check(&msg) {
                Err(Error::Decompress)
            } else {
                Ok(Message { bytes: msg })
            }
        } else {
            Err(Error::Length)
        }
    }
}

/// Round trip for scalar material: decoding the 32-byte encoding of a key
/// gives the key back whenever its bytes are not the all-zero pattern,
/// which decoding rejects.
pub proof fn lemma_secret_round_trip(k: Seq<u8>)
    requires
        k.len() == 32,
        !all_zero(k),
    ensures
        secret_decode(k) == Ok::<Seq<u8>, Error>(k),
{
    assert(k.take(32) =~= k);
}

/// Round trip for point material: decoding the 32-byte encoding of a public
/// key or message gives it back whenever its bytes are not the all-zero
/// pattern and encode a group element, as the bytes of every derived public
/// key and message do.
pub proof fn lemma_point_round_trip(k: Seq<u8>)
    requires
        k.len() == 32,
        !all_zero(k),
    ensures
        point_valid(k) ==> point_decode(k) == Ok::<Seq<u8>, Error>(k),
{
    assert(k.take(32) =~= k);
}

} // verus!
