use oake::{Error, EphemeralKey, Message, PublicKey, SecretKey};

#[test]
fn test_secret_round_trip() {
    let mut rng = rand::thread_rng();
    let k = SecretKey::generate(&mut rng);
    let parsed = SecretKey::from_bytes(k.as_bytes()).unwrap();
    assert_eq!(parsed.as_bytes(), k.as_bytes());
}

#[test]
fn test_public_round_trip() {
    let mut rng = rand::thread_rng();
    let sk = SecretKey::generate(&mut rng);
    let pk = PublicKey::from_secret(&sk);
    let parsed = PublicKey::from_bytes(pk.as_bytes()).unwrap();
    assert_eq!(parsed.as_bytes(), pk.as_bytes());
}

#[test]
fn test_message_round_trip() {
    let mut rng = rand::thread_rng();
    let ek = EphemeralKey::generate(&mut rng);
    let msg = Message::from_ephemeral(&ek);
    let parsed = Message::from_bytes(msg.as_bytes()).unwrap();
    assert_eq!(parsed.as_bytes(), msg.as_bytes());
}

#[test]
fn test_secret_from_arbitrary_bytes() {
    let bytes = [7u8; 32];
    let k = SecretKey::from_bytes(&bytes).unwrap();
    assert_eq!(k.as_bytes(), &bytes);
}

#[test]
fn test_decode_takes_first_32_bytes() {
    let mut rng = rand::thread_rng();
    let sk = SecretKey::generate(&mut rng);
    let pk = PublicKey::from_secret(&sk);

    let mut long = pk.as_bytes().to_vec();
    long.extend_from_slice(&[0xAB; 8]);
    let parsed = PublicKey::from_bytes(&long).unwrap();
    assert_eq!(parsed.as_bytes(), pk.as_bytes());

    let mut long_sk = sk.as_bytes().to_vec();
    long_sk.extend_from_slice(&[0xCD; 8]);
    let parsed_sk = SecretKey::from_bytes(&long_sk).unwrap();
    assert_eq!(parsed_sk.as_bytes(), sk.as_bytes());
}

#[test]
fn test_zero_rejection() {
    let zero = [0u8; 32];
    assert!(matches!(SecretKey::from_bytes(&zero), Err(Error::Zero)));
    assert!(matches!(PublicKey::from_bytes(&zero), Err(Error::Zero)));
    assert!(matches!(Message::from_bytes(&zero), Err(Error::Zero)));
}

#[test]
fn test_zero_rejection_of_longer_buffer() {
    // Only the first 32 bytes decide: a zero prefix is rejected even when
    // later bytes are not zero.
    let mut buf = [0u8; 40];
    buf[39] = 1;
    assert!(matches!(SecretKey::from_bytes(&buf), Err(Error::Zero)));
}

#[test]
fn test_length_rejection() {
    let short = [1u8; 31];
    assert!(matches!(SecretKey::from_bytes(&short), Err(Error::Length)));
    assert!(matches!(PublicKey::from_bytes(&short), Err(Error::Length)));
    assert!(matches!(Message::from_bytes(&short), Err(Error::Length)));
    assert!(matches!(SecretKey::from_bytes(&[]), Err(Error::Length)));
}

#[test]
fn test_decompress_rejection() {
    // The all-0xFF pattern is not a canonical field-element encoding, so it
    // cannot encode a group element.
    let bad = [0xFF; 32];
    assert!(matches!(PublicKey::from_bytes(&bad), Err(Error::Decompress)));
    assert!(matches!(Message::from_bytes(&bad), Err(Error::Decompress)));
    // Secret keys carry scalars, not points: the same bytes are accepted.
    assert!(SecretKey::from_bytes(&bad).is_ok());
}

#[test]
fn test_from_secret_matches_fixed_base() {
    // The scalar one maps to the group's basepoint: the public key of the
    // canonical encoding of one is the compressed basepoint itself.
    let mut one = [0u8; 32];
    one[0] = 1;
    let sk = SecretKey::from_bytes(&one).unwrap();
    let pk = PublicKey::from_secret(&sk);
    assert_eq!(
        pk.as_bytes(),
        curve25519_dalek::constants::RISTRETTO_BASEPOINT_COMPRESSED.as_bytes()
    );
}

#[test]
fn test_from_secret_deterministic() {
    let mut rng = rand::thread_rng();
    let sk = SecretKey::generate(&mut rng);
    let pk1 = PublicKey::from_secret(&sk);
    let pk2 = PublicKey::from_secret(&sk);
    assert_eq!(pk1.as_bytes(), pk2.as_bytes());
    // A public key is never the raw secret handed back.
    assert_ne!(pk1.as_bytes(), sk.as_bytes());
}
