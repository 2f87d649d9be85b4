use vpn_core::client::{client_hello_bytes, finish_handshake, ClientError};
use vpn_core::codec::{deserialize_message, serialize_message, HandshakeMessage};
use vpn_core::handshake::{
    derive_hybrid_session_key, derive_session_key, transcript, ClientHandshake, ServerHandshake,
};
use vpn_core::identity::{ClientVerifier, ServerIdentity};

const PSK: [u8; 32] = *b"0123456789abcdef0123456789abcdef";

#[test]
fn test_handshake_full_flow() {
    let psk = b"test_preshared_key_32bytes!!";
    assert_eq!(psk.len(), 28);

    let mut psk_32 = [0u8; 32];
    psk_32[..28].copy_from_slice(psk);

    let client = ClientHandshake::new(&psk_32).unwrap();
    let server = ServerHandshake::new(&psk_32);

    let client_hello = client.create_client_hello("test_client".to_string(), "10.0.0.2".to_string());
    let (client_pubkey, client_mlkem_pk) = match &client_hello {
        HandshakeMessage::ClientHello { client_pubkey, client_mlkem_pk, .. } => {
            (*client_pubkey, client_mlkem_pk.clone())
        }
        _ => panic!("Wrong message type"),
    };

    let (server_hello, mlkem_shared) = server.process_client_hello(client_pubkey, &client_mlkem_pk).unwrap();
    let (server_pubkey, mlkem_ciphertext) = match &server_hello {
        HandshakeMessage::ServerHello { server_pubkey, mlkem_ciphertext, .. } => {
            (*server_pubkey, mlkem_ciphertext.clone())
        }
        _ => panic!("Wrong message type"),
    };

    let client_session_key = client.process_server_hello(server_pubkey, &mlkem_ciphertext).unwrap();
    let server_session_key = server.compute_session_key(client_pubkey, &mlkem_shared).unwrap();

    assert_eq!(client_session_key, server_session_key);
}

fn run_handshake(client_psk: &[u8; 32], server_psk: &[u8; 32]) -> ([u8; 32], [u8; 32]) {
    let client = ClientHandshake::new(client_psk).unwrap();
    let server = ServerHandshake::new(server_psk);
    let hello = client.create_client_hello("c".to_string(), "10.0.0.2".to_string());
    let (cpk, ckem) = match hello {
        HandshakeMessage::ClientHello { client_pubkey, client_mlkem_pk, .. } => (client_pubkey, client_mlkem_pk),
        _ => panic!("Wrong message type"),
    };
    let (sh, ss) = server.process_client_hello(cpk, &ckem).unwrap();
    let (spk, ct) = match sh {
        HandshakeMessage::ServerHello { server_pubkey, mlkem_ciphertext, .. } => (server_pubkey, mlkem_ciphertext),
        _ => panic!("Wrong message type"),
    };
    let ck = client.process_server_hello(spk, &ct).unwrap();
    let sk = server.compute_session_key(cpk, &ss).unwrap();
    (ck, sk)
}

#[test]
fn honest_runs_agree_every_time() {
    for _ in 0..4 {
        let (ck, sk) = run_handshake(&PSK, &PSK);
        assert_eq!(ck, sk);
    }
}

#[test]
fn wrong_psk_gives_different_keys() {
    let mut other = PSK;
    other[5] ^= 0x01;
    let (ck, sk) = run_handshake(&other, &PSK);
    assert_ne!(ck, sk);
}

#[test]
fn hello_sizes_match_ml_kem_768() {
    let client = ClientHandshake::new(&PSK).unwrap();
    let hello = client.create_client_hello("id".to_string(), "10.0.0.7".to_string());
    let (cpk, ckem) = match hello {
        HandshakeMessage::ClientHello { client_pubkey, client_mlkem_pk, client_id, virtual_ip } => {
            assert_eq!(client_id, "id");
            assert_eq!(virtual_ip, "10.0.0.7");
            (client_pubkey, client_mlkem_pk)
        }
        _ => panic!("Wrong message type"),
    };
    assert_eq!(ckem.len(), 1184);
    let server = ServerHandshake::new(&PSK);
    let (sh, _ss) = server.process_client_hello(cpk, &ckem).unwrap();
    match sh {
        HandshakeMessage::ServerHello { server_pubkey, mlkem_ciphertext, signature } => {
            assert_eq!(server_pubkey, server.public_key_bytes());
            assert_eq!(mlkem_ciphertext.len(), 1088);
            assert!(signature.is_empty());
        }
        _ => panic!("Wrong message type"),
    }
}

#[test]
fn encapsulation_refuses_short_public_key() {
    let server = ServerHandshake::new(&PSK);
    assert!(server.process_client_hello([1u8; 32], &[0u8; 100]).is_err());
}

#[test]
fn decapsulation_refuses_short_ciphertext() {
    let client = ClientHandshake::new(&PSK).unwrap();
    assert!(client.process_server_hello([9u8; 32], &[0u8; 1000]).is_err());
}

#[test]
fn from_parts_checks_kem_key_lengths() {
    assert!(ClientHandshake::from_parts([1u8; 32], vec![0u8; 1184], vec![0u8; 2400], &PSK).is_some());
    assert!(ClientHandshake::from_parts([1u8; 32], vec![0u8; 1183], vec![0u8; 2400], &PSK).is_none());
    assert!(ClientHandshake::from_parts([1u8; 32], vec![0u8; 1184], vec![0u8; 10], &PSK).is_none());
}

#[test]
fn server_public_key_is_x25519_of_secret() {
    let mut secret = [0u8; 32];
    secret[0] = 1;
    let hs = ServerHandshake::from_secret(secret, &PSK);
    let expected = x25519_dalek::x25519(secret, x25519_dalek::X25519_BASEPOINT_BYTES);
    assert_eq!(hs.public_key_bytes(), expected);
}

#[test]
fn hybrid_key_is_blake3_of_label_and_parts() {
    let ke = [1u8; 32];
    let km = [2u8; 32];
    let mut input = Vec::new();
    input.extend_from_slice(b"VPN_HYBRID_SESSION_KEY_V2");
    input.extend_from_slice(&ke);
    input.extend_from_slice(&km);
    input.extend_from_slice(&PSK);
    let expected = *blake3::hash(&input).as_bytes();
    assert_eq!(derive_hybrid_session_key(&ke, &km, &PSK), expected);
}

#[test]
fn domain_separation_label_and_order_matter() {
    let ke = [1u8; 32];
    let km = [2u8; 32];
    let key = derive_hybrid_session_key(&ke, &km, &PSK);
    // Another order of the parts.
    assert_ne!(key, derive_hybrid_session_key(&km, &ke, &PSK));
    let mut swapped_psk = Vec::new();
    swapped_psk.extend_from_slice(b"VPN_HYBRID_SESSION_KEY_V2");
    swapped_psk.extend_from_slice(&PSK);
    swapped_psk.extend_from_slice(&km);
    swapped_psk.extend_from_slice(&ke);
    assert_ne!(key, *blake3::hash(&swapped_psk).as_bytes());
    // Another label.
    let mut relabelled = Vec::new();
    relabelled.extend_from_slice(b"VPN_HYBRID_SESSION_KEY_V3");
    relabelled.extend_from_slice(&ke);
    relabelled.extend_from_slice(&km);
    relabelled.extend_from_slice(&PSK);
    assert_ne!(key, *blake3::hash(&relabelled).as_bytes());
}

#[test]
fn classic_key_uses_its_own_label() {
    let ke = [7u8; 32];
    let mut input = Vec::new();
    input.extend_from_slice(b"VPN_SESSION_KEY_V1");
    input.extend_from_slice(&ke);
    input.extend_from_slice(&PSK);
    assert_eq!(derive_session_key(&ke, &PSK), *blake3::hash(&input).as_bytes());
    assert_ne!(derive_session_key(&ke, &PSK), derive_hybrid_session_key(&ke, &[], &PSK));
}

#[test]
fn transcript_is_server_then_client_key() {
    let t = transcript(&[1u8; 32], &[2u8; 32]);
    assert_eq!(t.len(), 64);
    assert_eq!(&t[..32], &[1u8; 32]);
    assert_eq!(&t[32..], &[2u8; 32]);
}

#[test]
fn client_finish_round_trip() {
    let (ck, sk) = run_handshake(&PSK, &PSK);
    let client = ClientHandshake::new(&PSK).unwrap();
    let server = ServerHandshake::new(&PSK);
    let finish = client.create_client_finish(&ck).unwrap();
    let confirm = match finish {
        HandshakeMessage::ClientFinish { encrypted_confirm } => encrypted_confirm,
        _ => panic!("Wrong message type"),
    };
    assert_eq!(confirm.len(), 21 + 28);
    assert!(server.verify_client_finish(&confirm, &sk).is_ok());
    assert!(server.verify_client_finish(&confirm, &[0u8; 32]).is_err());
    match server.create_server_finish(true) {
        HandshakeMessage::ServerFinish { success } => assert!(success),
        _ => panic!("Wrong message type"),
    }
}

fn server_hello_for(identity: &ServerIdentity, client: &ClientHandshake) -> (Vec<u8>, [u8; 32], [u8; 32]) {
    let hello = client.create_client_hello("c".to_string(), "10.0.0.2".to_string());
    let (cpk, ckem) = match hello {
        HandshakeMessage::ClientHello { client_pubkey, client_mlkem_pk, .. } => (client_pubkey, client_mlkem_pk),
        _ => panic!("Wrong message type"),
    };
    let server = ServerHandshake::new(&PSK);
    let (sh, ss) = server.process_client_hello(cpk, &ckem).unwrap();
    let (spk, ct) = match sh {
        HandshakeMessage::ServerHello { server_pubkey, mlkem_ciphertext, .. } => (server_pubkey, mlkem_ciphertext),
        _ => panic!("Wrong message type"),
    };
    let signature = identity.sign(&transcript(&spk, &cpk));
    let reply = HandshakeMessage::ServerHello { server_pubkey: spk, mlkem_ciphertext: ct, signature };
    let key = server.compute_session_key(cpk, &ss).unwrap();
    (serialize_message(&reply).unwrap(), key, spk)
}

#[test]
fn client_accepts_signed_server_hello() {
    let identity = ServerIdentity::generate();
    let verifier = ClientVerifier::new(&identity.public_key_bytes()).unwrap();
    let client = ClientHandshake::new(&PSK).unwrap();
    let (reply, server_key, _) = server_hello_for(&identity, &client);
    let key = finish_handshake(client, &verifier, &reply).unwrap();
    assert_eq!(key, server_key);
}

#[test]
fn forged_server_key_fails_signature_check() {
    let identity = ServerIdentity::generate();
    let verifier = ClientVerifier::new(&identity.public_key_bytes()).unwrap();
    let client = ClientHandshake::new(&PSK).unwrap();
    let (reply, _, _) = server_hello_for(&identity, &client);
    let forged = match deserialize_message(&reply).unwrap() {
        HandshakeMessage::ServerHello { mut server_pubkey, mlkem_ciphertext, signature } => {
            server_pubkey[0] ^= 0x55;
            HandshakeMessage::ServerHello { server_pubkey, mlkem_ciphertext, signature }
        }
        _ => panic!("Wrong message type"),
    };
    let forged = serialize_message(&forged).unwrap();
    assert_eq!(finish_handshake(client, &verifier, &forged), Err(ClientError::BadSignature));
}

#[test]
fn signature_by_another_identity_fails() {
    let identity = ServerIdentity::generate();
    let impostor = ServerIdentity::generate();
    let verifier = ClientVerifier::new(&identity.public_key_bytes()).unwrap();
    let client = ClientHandshake::new(&PSK).unwrap();
    let (reply, _, _) = server_hello_for(&impostor, &client);
    assert_eq!(finish_handshake(client, &verifier, &reply), Err(ClientError::BadSignature));
}

#[test]
fn client_rejects_garbage_and_wrong_variant() {
    let identity = ServerIdentity::generate();
    let verifier = ClientVerifier::new(&identity.public_key_bytes()).unwrap();
    let client = ClientHandshake::new(&PSK).unwrap();
    assert_eq!(finish_handshake(client, &verifier, &[1, 2, 3]), Err(ClientError::Malformed));
    let client = ClientHandshake::new(&PSK).unwrap();
    let finish = serialize_message(&HandshakeMessage::ServerFinish { success: true }).unwrap();
    assert_eq!(finish_handshake(client, &verifier, &finish), Err(ClientError::UnexpectedMessage));
}

#[test]
fn client_hello_bytes_decode_to_the_hello() {
    let client = ClientHandshake::new(&PSK).unwrap();
    let bytes = client_hello_bytes(&client, "client_10.0.0.2".to_string(), "10.0.0.2".to_string());
    match deserialize_message(&bytes).unwrap() {
        HandshakeMessage::ClientHello { client_mlkem_pk, client_id, virtual_ip, .. } => {
            assert_eq!(client_mlkem_pk.len(), 1184);
            assert_eq!(client_id, "client_10.0.0.2");
            assert_eq!(virtual_ip, "10.0.0.2");
        }
        _ => panic!("Wrong message type"),
    }
}

#[test]
fn client_rejects_signed_hello_with_short_ciphertext() {
    let identity = ServerIdentity::generate();
    let verifier = ClientVerifier::new(&identity.public_key_bytes()).unwrap();
    let client = ClientHandshake::new(&PSK).unwrap();
    let hello = client.create_client_hello("c".to_string(), "10.0.0.2".to_string());
    let cpk = match hello {
        HandshakeMessage::ClientHello { client_pubkey, .. } => client_pubkey,
        _ => panic!("Wrong message type"),
    };
    let server = ServerHandshake::new(&PSK);
    let spk = server.public_key_bytes();
    let signature = identity.sign(&transcript(&spk, &cpk));
    let reply = HandshakeMessage::ServerHello { server_pubkey: spk, mlkem_ciphertext: vec![0u8; 10], signature };
    let reply = serialize_message(&reply).unwrap();
    assert_eq!(finish_handshake(client, &verifier, &reply), Err(ClientError::Decapsulation));
}
