use vpn_core::identity::{ClientVerifier, IdentityError, ServerIdentity};

#[test]
fn test_sign_and_verify() {
    let identity = ServerIdentity::generate();
    let message = b"Test message";

    let signature = identity.sign(message);

    let verifier = ClientVerifier::new(&identity.public_key_bytes()).unwrap();
    assert!(verifier.verify(message, &signature).is_ok());

    let wrong_message = b"Wrong message";
    assert!(verifier.verify(wrong_message, &signature).is_err());
}

#[test]
fn signatures_are_64_bytes_and_checked_for_length() {
    let identity = ServerIdentity::generate();
    let signature = identity.sign(b"m");
    assert_eq!(signature.len(), 64);
    let verifier = ClientVerifier::new(&identity.public_key_bytes()).unwrap();
    assert_eq!(verifier.verify(b"m", &signature[..63]), Err(IdentityError::BadSignatureLength));
    let mut flipped = signature.clone();
    flipped[10] ^= 1;
    assert_eq!(verifier.verify(b"m", &flipped), Err(IdentityError::BadSignature));
}

#[test]
fn key_pair_from_stored_secret() {
    let identity = ServerIdentity::generate();
    let stored = identity.secret_key_bytes();
    let loaded = ServerIdentity::from_secret_bytes(&stored).unwrap();
    assert_eq!(loaded.public_key_bytes(), identity.public_key_bytes());
    assert_eq!(loaded.sign(b"x"), identity.sign(b"x"));
    assert_eq!(ServerIdentity::from_secret_bytes(&stored[..31]).err(), Some(IdentityError::BadKeyLength));
}

#[test]
fn public_key_matches_ed25519_dalek() {
    let secret = [42u8; 32];
    let identity = ServerIdentity::from_secret(secret);
    let expected = ed25519_dalek::SigningKey::from_bytes(&secret).verifying_key().to_bytes();
    assert_eq!(identity.public_key_bytes(), expected);
}

#[test]
fn public_key_hex_is_lowercase_two_digits_per_byte() {
    let identity = ServerIdentity::from_secret([1u8; 32]);
    let hex = identity.public_key_hex();
    assert_eq!(hex.len(), 64);
    assert_eq!(hex, hex::encode(identity.public_key_bytes()));
    assert!(hex.chars().all(|c| c.is_ascii_digit() || ('a'..='f').contains(&c)));
}

#[test]
fn verifier_from_stored_bytes() {
    let identity = ServerIdentity::generate();
    let pk = identity.public_key_bytes();
    assert!(ClientVerifier::from_key_bytes(&pk).is_ok());
    assert_eq!(ClientVerifier::from_key_bytes(&pk[..16]).err(), Some(IdentityError::BadKeyLength));
}

#[test]
fn some_32_byte_strings_are_not_points() {
    let refused = (0u8..=255).any(|b| {
        let mut k = [0u8; 32];
        k[0] = b;
        k[31] = 0x7f;
        ClientVerifier::new(&k).err() == Some(IdentityError::InvalidPublicKey)
    });
    assert!(refused);
}
