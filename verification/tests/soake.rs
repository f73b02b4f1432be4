use oake::soake::{recv, send};
use oake::{EphemeralKey, Message, PublicKey, SecretKey};

struct Party {
    secret: SecretKey,
    public: PublicKey,
    ephemeral: EphemeralKey,
    message: Message,
}

fn party() -> Party {
    let mut rng = rand::thread_rng();
    let secret = SecretKey::generate(&mut rng);
    let public = PublicKey::from_secret(&secret);
    let ephemeral = EphemeralKey::generate(&mut rng);
    let message = Message::from_ephemeral(&ephemeral);
    Party { secret, public, ephemeral, message }
}

fn run_exchange(a_name: &str, b_name_at_a: &str, b_name_at_b: &str, out_len: usize) -> (Vec<u8>, Vec<u8>) {
    let a = party();
    let b = party();

    let a_key = send(
        (a_name, &a.secret, &a.public),
        (b_name_at_a, &b.public),
        (&a.ephemeral, &a.message),
        &b.message,
        out_len,
    )
    .unwrap();

    let b_key = recv(
        (b_name_at_b, &b.secret, &b.public),
        (a_name, &a.public),
        (&b.ephemeral, &b.message),
        &a.message,
        out_len,
    )
    .unwrap();

    (a_key, b_key)
}

#[test]
fn test_soake() {
    let mut rng = rand::thread_rng();

    let a_name = "alice@oake.ene";
    let a_sk = SecretKey::generate(&mut rng);
    let a_pk = PublicKey::from_secret(&a_sk);
    let a_ek = EphemeralKey::generate(&mut rng);
    let a_epk = Message::from_ephemeral(&a_ek);

    let b_name = "bob@oake.ene";
    let b_sk = SecretKey::generate(&mut rng);
    let b_pk = PublicKey::from_secret(&b_sk);
    let b_ek = EphemeralKey::generate(&mut rng);
    let b_epk = Message::from_ephemeral(&b_ek);

    let a_key = send(
        (a_name, &a_sk, &a_pk),
        (b_name, &b_pk),
        (&a_ek, &a_epk),
        &b_epk,
        32,
    )
    .unwrap();

    let b_key = recv(
        (b_name, &b_sk, &b_pk),
        (a_name, &a_pk),
        (&b_ek, &b_epk),
        &a_epk,
        32,
    )
    .unwrap();

    assert_ne!(a_key, vec![0u8; 32]);
    assert_eq!(a_key, b_key);
}

#[test]
fn test_scenario_agreement() {
    let (a_key, b_key) = run_exchange("alice@example", "bob@example", "bob@example", 32);
    assert_eq!(a_key.len(), 32);
    assert_eq!(b_key.len(), 32);
    assert_eq!(a_key, b_key);
    assert_ne!(a_key, vec![0u8; 32]);
}

#[test]
fn test_scenario_identity_mismatch() {
    let (a_key, b_key) = run_exchange("alice@example", "bob@example", "mallory@example", 32);
    assert_ne!(a_key, b_key);
}

#[test]
fn test_identity_byte_sensitivity() {
    let (a_key, b_key) = run_exchange("alice@example", "bob@example", "boc@example", 32);
    assert_ne!(a_key, b_key);
}

#[test]
fn test_public_key_sensitivity() {
    let a = party();
    let b = party();
    let c = party();

    let a_key = send(
        ("alice@example", &a.secret, &a.public),
        ("bob@example", &b.public),
        (&a.ephemeral, &a.message),
        &b.message,
        32,
    )
    .unwrap();

    // The responder sees a one-byte corruption of the initiator's public key
    // in its transcript; the derived outputs must differ.
    let mut corrupt = *a.public.as_bytes();
    corrupt[3] ^= 0x40;
    let a_public_corrupt = match PublicKey::from_bytes(&corrupt) {
        Ok(pk) => pk,
        // The flipped byte may leave the curve; another valid public key
        // changes the transcript just the same.
        Err(_) => c.public,
    };

    let b_key = recv(
        ("bob@example", &b.secret, &b.public),
        ("alice@example", &a_public_corrupt),
        (&b.ephemeral, &b.message),
        &a.message,
        32,
    )
    .unwrap();

    assert_ne!(a_key, b_key);
}

#[test]
fn test_message_sensitivity() {
    let a = party();
    let b = party();
    let c = party();

    let a_key = send(
        ("alice@example", &a.secret, &a.public),
        ("bob@example", &b.public),
        (&a.ephemeral, &a.message),
        &b.message,
        32,
    )
    .unwrap();

    // The responder answers a different initiator message: outputs differ.
    let b_key = recv(
        ("bob@example", &b.secret, &b.public),
        ("alice@example", &a.public),
        (&b.ephemeral, &b.message),
        &c.message,
        32,
    )
    .unwrap();

    assert_ne!(a_key, b_key);
}

#[test]
fn test_requested_output_length() {
    let (a_key, b_key) = run_exchange("alice@example", "bob@example", "bob@example", 99);
    assert_eq!(a_key.len(), 99);
    assert_eq!(a_key, b_key);

    let (short_a, short_b) = run_exchange("alice@example", "bob@example", "bob@example", 1);
    assert_eq!(short_a.len(), 1);
    assert_eq!(short_b.len(), 1);
}

#[test]
fn test_derivation_deterministic() {
    let a = party();
    let b = party();

    let once = send(
        ("alice@example", &a.secret, &a.public),
        ("bob@example", &b.public),
        (&a.ephemeral, &a.message),
        &b.message,
        32,
    )
    .unwrap();

    let again = send(
        ("alice@example", &a.secret, &a.public),
        ("bob@example", &b.public),
        (&a.ephemeral, &a.message),
        &b.message,
        32,
    )
    .unwrap();

    assert_eq!(once, again);
}
