//! The strong one-pass key agreement: the initiator-side and responder-side
//! derivations of the shared secret.
//!
//! Both sides hash the transcript — initiator identity, initiator public
//! key, responder identity, responder public key, initiator message,
//! responder message, in this fixed order on either side — through SHA3-512
//! into a challenge scalar `e`, combine it with their own scalars and the
//! peer's points into one group element, and stretch that element's
//! compressed encoding through SHAKE-256 into the requested number of output
//! bytes.
//!
//! The combined element is `peer_public · eph + peer_message · (secret +
//! e · eph)` on each side, over each side's own secret and ephemeral
//! scalars; by the algebra of the prime-order group the two sides land on
//! the same element exactly when the exchanged public material belongs to
//! the claimed key pairs.

use vstd::prelude::*;

use crate::primitives::{challenge, point_valid, pt_add, pt_mul, sc_add, sc_mul, xof};
use crate::primitives::{hash_to_scalar, point_mul_bytes, point_add_bytes, scalar_add_bytes,
    scalar_mul_bytes, xof_bytes};
use crate::{Error, EphemeralKey, Message, PublicKey, SecretKey};

verus! {

use vstd::string::StringSliceAdditionalSpecFns;


/// The transcript both sides bind the exchange to: the concatenation, in
/// this fixed order, of the initiator's identity, the initiator's public
/// key, the responder's identity, the responder's public key, the
/// initiator's message, and the responder's message.
pub open spec fn transcript(
    init_id: Seq<u8>,
    init_public: Seq<u8>,
    resp_id: Seq<u8>,
    resp_public: Seq<u8>,
    init_message: Seq<u8>,
    resp_message: Seq<u8>,
) -> Seq<u8> {
    init_id + init_public + resp_id + resp_public + init_message + resp_message
}

/// The challenge scalar as the initiator derives it, from its own (`self_`)
/// material and its peer's: the initiator's material leads the transcript.
pub open spec fn initiator_challenge(
    self_id: Seq<u8>,
    self_public: Seq<u8>,
    peer_id: Seq<u8>,
    peer_public: Seq<u8>,
    self_message: Seq<u8>,
    peer_message: Seq<u8>,
) -> Seq<u8> {
    challenge(transcript(self_id, self_public, peer_id, peer_public, self_message, peer_message))
}

/// The challenge scalar as the responder derives it, from its own (`self_`)
/// material and its peer's: the peer's (initiator's) material leads the
/// transcript.
pub open spec fn responder_challenge(
    self_id: Seq<u8>,
    self_public: Seq<u8>,
    peer_id: Seq<u8>,
    peer_public: Seq<u8>,
    self_message: Seq<u8>,
    peer_message: Seq<u8>,
) -> Seq<u8> {
    challenge(transcript(peer_id, peer_public, self_id, self_public, peer_message, self_message))
}

/// The combined group element of one side: `peer_public · eph +
/// peer_message · (secret + e · eph)`, over that side's own secret and
/// ephemeral scalars and the challenge `e`.
pub open spec fn shared_element(
    peer_public: Seq<u8>,
    peer_message: Seq<u8>,
    secret: Seq<u8>,
    eph: Seq<u8>,
    e: Seq<u8>,
) -> Seq<u8> {
    pt_add(pt_mul(peer_public, eph), pt_mul(peer_message, sc_add(secret, sc_mul(e, eph))))
}

/// The group element the initiator combines, of its own view of the
/// exchange.
pub open spec fn initiator_element(
    self_id: Seq<u8>,
    self_public: Seq<u8>,
    peer_id: Seq<u8>,
    peer_public: Seq<u8>,
    self_message: Seq<u8>,
    peer_message: Seq<u8>,
    secret: Seq<u8>,
    eph: Seq<u8>,
) -> Seq<u8> {
    shared_element(
        peer_public,
        peer_message,
        secret,
        eph,
        initiator_challenge(self_id, self_public, peer_id, peer_public, self_message, peer_message),
    )
}

/// The group element the responder combines, of its own view of the
/// exchange.
pub open spec fn responder_element(
    self_id: Seq<u8>,
    self_public: Seq<u8>,
    peer_id: Seq<u8>,
    peer_public: Seq<u8>,
    self_message: Seq<u8>,
    peer_message: Seq<u8>,
    secret: Seq<u8>,
    eph: Seq<u8>,
) -> Seq<u8> {
    shared_element(
        peer_public,
        peer_message,
        secret,
        eph,
        responder_challenge(self_id, self_public, peer_id, peer_public, self_message, peer_message),
    )
}

/// Appends every byte of a slice to a vector.
fn push_all(v: &mut Vec<u8>, s: &[u8])
    ensures
        final(v)@ == old(v)@ + s@,
{
    let mut i: usize = 0;
    while i < s.len()
        invariant
            i <= s@.len(),
            v@ == old(v)@ + s@.take(i as int),
        decreases s@.len() - i,
    {
        let b = s[i];
        proof {
            assert(s@.take(i as int + 1) =~= s@.take(i as int).push(s@[i as int]));
        }
        v.push(b);
        i = i + 1;
    }
    proof {
        assert(s@.take(s@.len() as int) =~= s@);
    }
}

/// Concatenates the six transcript components in the fixed
/// initiator-then-responder order.
fn build_transcript(
    init_id: &[u8],
    init_public: &[u8; 32],
    resp_id: &[u8],
    resp_public: &[u8; 32],
    init_message: &[u8; 32],
    resp_message: &[u8; 32],
) -> (t: Vec<u8>)
    ensures
        t@ == transcript(init_id@, init_public@, resp_id@, resp_public@, init_message@,
            resp_message@),
{
    let mut t: Vec<u8> = Vec::new();
    push_all(&mut t, init_id);
    push_all(&mut t, init_public.as_slice());
    push_all(&mut t, resp_id);
    push_all(&mut t, resp_public.as_slice());
    push_all(&mut t, init_message.as_slice());
    push_all(&mut t, resp_message.as_slice());
    t
}

/// Combines one side's secret and ephemeral scalars with the peer's public
/// key and message under the challenge `e`, failing exactly when the peer's
/// stored bytes do not encode group elements.
fn combine(
    peer_public: &[u8; 32],
    peer_message: &[u8; 32],
    secret: &[u8; 32],
    eph: &[u8; 32],
    e: &[u8; 32],
) -> (r: Result<[u8; 32], Error>)
    ensures
        match r {
            Ok(k) => {
                &&& point_valid(peer_public@)
                &&& point_valid(peer_message@)
                &&& k@ == shared_element(peer_public@, peer_message@, secret@, eph@, e@)
            },
            Err(err) => {
                &&& err == Error::Decompress
                &&& !(point_valid(peer_public@)
                    && point_valid(peer_message@))
            },
        },
{
    let ex = scalar_mul_bytes(e, eph);
    let s = scalar_add_bytes(secret, &ex);
    let p = match point_mul_bytes(peer_public, eph) {
        Some(p) => p,
        None => {
            return Err(Error::Decompress);
        },
    };
    let q = match point_mul_bytes(peer_message, &s) {
        Some(q) => q,
        None => {
            return Err(Error::Decompress);
        },
    };
    match point_add_bytes(&p, &q) {
        Some(k) => Ok(k),
        None => Err(Error::Decompress),
    }
}

/// The initiator-side derivation. `initiator` is the caller's identity,
/// secret key, and public key; `responder` the peer's identity and public
/// key; `ephemeral` the caller's fresh ephemeral key and its message;
/// `peer_message` the message received from the peer. Returns `out_len`
/// bytes of shared secret, or `Error::Decompress` exactly when the peer's
/// stored public-key or message bytes do not encode group elements; no
/// output is produced in that case.
pub fn send(
    initiator: (&str, &SecretKey, &PublicKey),
    responder: (&str, &PublicKey),
    ephemeral: (&EphemeralKey, &Message),
    peer_message: &Message,
    out_len: usize,
) -> (r: Result<Vec<u8>, Error>)
    ensures
        match r {
            Ok(key) => {
                &&& point_valid(responder.1@)
                &&& point_valid(peer_message@)
                &&& key@ == xof(
                    initiator_element(
                        initiator.0.spec_bytes(),
                        initiator.2@,
                        responder.0.spec_bytes(),
                        responder.1@,
                        ephemeral.1@,
                        peer_message@,
                        initiator.1@,
                        ephemeral.0@,
                    ),
                    out_len as nat,
                )
                &&& key@.len() == out_len
            },
            Err(e) => {
                &&& e == Error::Decompress
                &&& !(point_valid(responder.1@)
                    && point_valid(peer_message@))
            },
        },
{
    let (self_id, self_secret, self_public) = initiator;
    let (peer_id, peer_public) = responder;
    let (self_eph, self_message) = ephemeral;
    let t = build_transcript(
        self_id.as_bytes(),
        &self_public.bytes,
        peer_id.as_bytes(),
        &peer_public.bytes,
        &self_message.bytes,
        &peer_message.bytes,
    );
    let e = hash_to_scalar(t.as_slice());
    match combine(&peer_public.bytes, &peer_message.bytes, &self_secret.bytes, &self_eph.bytes,
        &e) {
        Ok(k) => Ok(xof_bytes(k.as_slice(), out_len)),
        Err(err) => Err(err),
    }
}

/// The responder-side derivation, dual to [`send`]: the same transcript is
/// hashed with the peer's (initiator's) material leading, and the caller's
/// own scalars are combined with the peer's points. The result and failure
/// conditions mirror [`send`].
pub fn recv(
    responder: (&str, &SecretKey, &PublicKey),
    initiator: (&str, &PublicKey),
    ephemeral: (&EphemeralKey, &Message),
    peer_message: &Message,
    out_len: usize,
) -> (r: Result<Vec<u8>, Error>)
    ensures
        match r {
            Ok(key) => {
                &&& point_valid(initiator.1@)
                &&& point_valid(peer_message@)
                &&& key@ == xof(
                    responder_element(
                        responder.0.spec_bytes(),
                        responder.2@,
                        initiator.0.spec_bytes(),
                        initiator.1@,
                        ephemeral.1@,
                        peer_message@,
                        responder.1@,
                        ephemeral.0@,
                    ),
                    out_len as nat,
                )
                &&& key@.len() == out_len
            },
            Err(e) => {
                &&& e == Error::Decompress
                &&& !(point_valid(initiator.1@)
                    && point_valid(peer_message@))
            },
        },
{
    let (self_id, self_secret, self_public) = responder;
    let (peer_id, peer_public) = initiator;
    let (self_eph, self_message) = ephemeral;
    let t = build_transcript(
        peer_id.as_bytes(),
        &peer_public.bytes,
        self_id.as_bytes(),
        &self_public.bytes,
        &peer_message.bytes,
        &self_message.bytes,
    );
    let e = hash_to_scalar(t.as_slice());
    match combine(&peer_public.bytes, &peer_message.bytes, &self_secret.bytes, &self_eph.bytes,
        &e) {
        Ok(k) => Ok(xof_bytes(k.as_slice(), out_len)),
        Err(err) => Err(err),
    }
}

/// Agreement, up to the group algebra: with correctly swapped roles the two
/// sides hash one transcript, so their challenge scalars coincide; and
/// whenever their combined group elements coincide — the algebra of the
/// prime-order group guarantees this exactly for matching key pairs, and is
/// consumed here as a primitive — the derived outputs of every requested
/// length coincide too.
pub proof fn lemma_agreement(
    init_id: Seq<u8>,
    init_public: Seq<u8>,
    resp_id: Seq<u8>,
    resp_public: Seq<u8>,
    init_message: Seq<u8>,
    resp_message: Seq<u8>,
    init_secret: Seq<u8>,
    init_eph: Seq<u8>,
    resp_secret: Seq<u8>,
    resp_eph: Seq<u8>,
    n: nat,
)
    ensures
        initiator_challenge(init_id, init_public, resp_id, resp_public, init_message, resp_message)
            == responder_challenge(resp_id, resp_public, init_id, init_public, resp_message,
            init_message),
        initiator_element(init_id, init_public, resp_id, resp_public, init_message, resp_message,
            init_secret, init_eph) == responder_element(resp_id, resp_public, init_id, init_public,
            resp_message, init_message, resp_secret, resp_eph) ==> xof(
            initiator_element(init_id, init_public, resp_id, resp_public, init_message,
                resp_message, init_secret, init_eph),
            n,
        ) == xof(
            responder_element(resp_id, resp_public, init_id, init_public, resp_message,
                init_message, resp_secret, resp_eph),
            n,
        ),
{
}

/// Concatenation of two byte sequences is injective once the length of the
/// leading part is fixed.
proof fn lemma_concat_injective(a1: Seq<u8>, b1: Seq<u8>, a2: Seq<u8>, b2: Seq<u8>)
    requires
        a1.len() == a2.len(),
        a1 + b1 == a2 + b2,
    ensures
        a1 == a2,
        b1 == b2,
{
    let t = a1 + b1;
    let n = a1.len() as int;
    assert((a1 + b1).len() == a1.len() + b1.len());
    assert((a2 + b2).len() == a2.len() + b2.len());
    assert(a1 =~= t.subrange(0, n));
    assert(b1 =~= t.subrange(n, t.len() as int));
    assert(a2 =~= t.subrange(0, n));
    assert(b2 =~= t.subrange(n, t.len() as int));
}

/// Transcript sensitivity, the injective part: two transcripts over
/// components of matching lengths are equal only if every component is
/// equal. So changing any byte of either identity, either public key, or
/// either message changes the transcript fed to the challenge hash; that
/// the hash, and with it the derived output, then changes is a property of
/// the hash function, consumed here as a primitive.
pub proof fn lemma_transcript_sensitivity(
    init_id1: Seq<u8>,
    init_public1: Seq<u8>,
    resp_id1: Seq<u8>,
    resp_public1: Seq<u8>,
    init_message1: Seq<u8>,
    resp_message1: Seq<u8>,
    init_id2: Seq<u8>,
    init_public2: Seq<u8>,
    resp_id2: Seq<u8>,
    resp_public2: Seq<u8>,
    init_message2: Seq<u8>,
    resp_message2: Seq<u8>,
)
    requires
        init_id1.len() == init_id2.len(),
        init_public1.len() == init_public2.len(),
        resp_id1.len() == resp_id2.len(),
        resp_public1.len() == resp_public2.len(),
        init_message1.len() == init_message2.len(),
        resp_message1.len() == resp_message2.len(),
        transcript(init_id1, init_public1, resp_id1, resp_public1, init_message1, resp_message1)
            == transcript(init_id2, init_public2, resp_id2, resp_public2, init_message2,
            resp_message2),
    ensures
        init_id1 == init_id2,
        init_public1 == init_public2,
        resp_id1 == resp_id2,
        resp_public1 == resp_public2,
        init_message1 == init_message2,
        resp_message1 == resp_message2,
{
    lemma_concat_injective(
        init_id1 + init_public1 + resp_id1 + resp_public1 + init_message1,
        resp_message1,
        init_id2 + init_public2 + resp_id2 + resp_public2 + init_message2,
        resp_message2,
    );
    lemma_concat_injective(
        init_id1 + init_public1 + resp_id1 + resp_public1,
        init_message1,
        init_id2 + init_public2 + resp_id2 + resp_public2,
        init_message2,
    );
    lemma_concat_injective(
        init_id1 + init_public1 + resp_id1,
        resp_public1,
        init_id2 + init_public2 + resp_id2,
        resp_public2,
    );
    lemma_concat_injective(init_id1 + init_public1, resp_id1, init_id2 + init_public2, resp_id2);
    lemma_concat_injective(init_id1, init_public1, init_id2, init_public2);
}

} // verus!
