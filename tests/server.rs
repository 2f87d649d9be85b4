use vpn_core::client::{client_hello_bytes, finish_handshake};
use vpn_core::codec::{serialize_message, HandshakeMessage};
use vpn_core::handshake::ClientHandshake;
use vpn_core::identity::{ClientVerifier, ServerIdentity};
use vpn_core::record::Cipher;
use vpn_core::server::{Endpoint, Forward, ServerCore};

const PSK: [u8; 32] = *b"0123456789abcdef0123456789abcdef";

fn ep(last: u8, port: u16) -> Endpoint {
    Endpoint { ip: u32::from_be_bytes([127, 0, 0, last]), port }
}

fn packet(src: [u8; 4], dst: [u8; 4], proto: u8) -> Vec<u8> {
    let mut p = vec![0x45, 0, 0, 28, 0, 0, 0, 0, 64, proto, 0, 0];
    p.extend_from_slice(&src);
    p.extend_from_slice(&dst);
    p.extend_from_slice(&[8, 0, 0, 0, 0, 1, 0, 1]);
    p
}

fn join(server: &mut ServerCore, identity: &ServerIdentity, from: Endpoint, vip: &str, psk: &[u8; 32]) -> Cipher {
    let verifier = ClientVerifier::new(&identity.public_key_bytes()).unwrap();
    let hs = ClientHandshake::new(psk).unwrap();
    let hello = client_hello_bytes(&hs, format!("client_{}", vip), vip.to_string());
    let reply = match server.handle_datagram(identity, from, &hello) {
        Forward::Send { to, datagram } => {
            assert_eq!(to, from);
            datagram
        }
        _ => panic!("no ServerHello"),
    };
    let key = finish_handshake(hs, &verifier, &reply).unwrap();
    Cipher::new(&key).unwrap()
}

#[test]
fn handshake_installs_session_and_peer() {
    let identity = ServerIdentity::generate();
    let mut server = ServerCore::new(PSK, false);
    let a = ep(1, 40001);
    join(&mut server, &identity, a, "10.0.0.2", &PSK);
    assert!(server.session_of(a).is_some());
    assert_eq!(server.peer_of(0x0a00_0002), Some(a));
}

#[test]
fn undotted_virtual_ip_installs_no_peer() {
    let identity = ServerIdentity::generate();
    let mut server = ServerCore::new(PSK, false);
    let a = ep(1, 40001);
    join(&mut server, &identity, a, "not-an-ip", &PSK);
    assert!(server.session_of(a).is_some());
    assert_eq!(server.peer_of(0x0a00_0002), None);
}

#[test]
fn two_clients_client_to_client() {
    let identity = ServerIdentity::generate();
    let mut server = ServerCore::new(PSK, false);
    let a = ep(1, 40001);
    let b = ep(1, 40002);
    let ca = join(&mut server, &identity, a, "10.0.0.2", &PSK);
    let cb = join(&mut server, &identity, b, "10.0.0.3", &PSK);
    let p = packet([10, 0, 0, 2], [10, 0, 0, 3], 1);
    let frame = ca.encrypt(&p).unwrap();
    match server.handle_datagram(&identity, a, &frame) {
        Forward::Send { to, datagram } => {
            assert_eq!(to, b);
            assert_eq!(cb.decrypt(&datagram).unwrap(), p);
            assert!(ca.decrypt(&datagram).is_err());
        }
        _ => panic!("not forwarded"),
    }
}

#[test]
fn unknown_peer_is_dropped() {
    let identity = ServerIdentity::generate();
    let mut server = ServerCore::new(PSK, true);
    let a = ep(1, 40001);
    let b = ep(1, 40002);
    let ca = join(&mut server, &identity, a, "10.0.0.2", &PSK);
    join(&mut server, &identity, b, "10.0.0.3", &PSK);
    let frame = ca.encrypt(&packet([10, 0, 0, 2], [10, 0, 0, 9], 1)).unwrap();
    assert!(matches!(server.handle_datagram(&identity, a, &frame), Forward::Drop));
    assert_eq!(server.peer_of(0x0a00_0003), Some(b));
}

#[test]
fn wrong_psk_data_is_dropped() {
    let identity = ServerIdentity::generate();
    let mut server = ServerCore::new(PSK, true);
    let a = ep(1, 40001);
    let mut other = PSK;
    other[0] ^= 1;
    let ca = join(&mut server, &identity, a, "10.0.0.2", &other);
    let frame = ca.encrypt(&packet([10, 0, 0, 2], [8, 8, 8, 8], 6)).unwrap();
    assert!(matches!(server.handle_datagram(&identity, a, &frame), Forward::Drop));
}

#[test]
fn data_from_unknown_endpoint_is_dropped() {
    let identity = ServerIdentity::generate();
    let mut server = ServerCore::new(PSK, true);
    let stranger = Cipher::new(&[1u8; 32]).unwrap();
    let frame = stranger.encrypt(&packet([10, 0, 0, 2], [8, 8, 8, 8], 6)).unwrap();
    assert!(matches!(server.handle_datagram(&identity, ep(9, 1), &frame), Forward::Drop));
    assert_eq!(server.peer_of(0x0a00_0002), None);
}

#[test]
fn gateway_mode_writes_to_tun_and_relays_reply() {
    let identity = ServerIdentity::generate();
    let mut server = ServerCore::new(PSK, true);
    let a = ep(1, 40001);
    let ca = join(&mut server, &identity, a, "10.0.0.2", &PSK);
    let syn = packet([10, 0, 0, 2], [8, 8, 8, 8], 6);
    let frame = ca.encrypt(&syn).unwrap();
    match server.handle_datagram(&identity, a, &frame) {
        Forward::WriteTun { packet } => assert_eq!(packet, syn),
        _ => panic!("not written to the TUN device"),
    }
    let reply = packet([8, 8, 8, 8], [10, 0, 0, 2], 6);
    let (to, datagram) = server.handle_tun_packet(&reply).unwrap();
    assert_eq!(to, a);
    assert_eq!(ca.decrypt(&datagram).unwrap(), reply);
    assert!(server.handle_tun_packet(&packet([8, 8, 8, 8], [10, 0, 0, 77], 6)).is_none());
    assert!(server.handle_tun_packet(&reply[..19]).is_none());
}

#[test]
fn relay_mode_drops_internet_traffic() {
    let identity = ServerIdentity::generate();
    let mut server = ServerCore::new(PSK, false);
    let a = ep(1, 40001);
    let ca = join(&mut server, &identity, a, "10.0.0.2", &PSK);
    let frame = ca.encrypt(&packet([10, 0, 0, 2], [8, 8, 8, 8], 6)).unwrap();
    assert!(matches!(server.handle_datagram(&identity, a, &frame), Forward::Drop));
}

#[test]
fn auto_learn_follows_packet_source() {
    let identity = ServerIdentity::generate();
    let mut server = ServerCore::new(PSK, true);
    let a = ep(1, 40001);
    let ca = join(&mut server, &identity, a, "10.0.0.2", &PSK);
    assert_eq!(server.peer_of(0x0a00_0002), Some(a));
    let frame = ca.encrypt(&packet([10, 0, 0, 2], [8, 8, 8, 8], 1)).unwrap();
    server.handle_datagram(&identity, a, &frame);
    assert_eq!(server.peer_of(0x0a00_0002), Some(a));
    let frame = ca.encrypt(&packet([10, 0, 0, 5], [8, 8, 8, 8], 1)).unwrap();
    server.handle_datagram(&identity, a, &frame);
    assert_eq!(server.peer_of(0x0a00_0005), Some(a));
}

#[test]
fn rehandshake_moves_the_peer() {
    let identity = ServerIdentity::generate();
    let mut server = ServerCore::new(PSK, false);
    let a = ep(1, 40001);
    let a2 = ep(1, 40011);
    join(&mut server, &identity, a, "10.0.0.2", &PSK);
    join(&mut server, &identity, a2, "10.0.0.2", &PSK);
    assert_eq!(server.peer_of(0x0a00_0002), Some(a2));
}

#[test]
fn replayed_data_frame_is_forwarded_again() {
    let identity = ServerIdentity::generate();
    let mut server = ServerCore::new(PSK, false);
    let a = ep(1, 40001);
    let b = ep(1, 40002);
    let ca = join(&mut server, &identity, a, "10.0.0.2", &PSK);
    let cb = join(&mut server, &identity, b, "10.0.0.3", &PSK);
    let p = packet([10, 0, 0, 2], [10, 0, 0, 3], 1);
    let frame = ca.encrypt(&p).unwrap();
    for _ in 0..2 {
        match server.handle_datagram(&identity, a, &frame) {
            Forward::Send { to, datagram } => {
                assert_eq!(to, b);
                assert_eq!(cb.decrypt(&datagram).unwrap(), p);
            }
            _ => panic!("replay not forwarded"),
        }
    }
}

#[test]
fn other_handshake_frames_are_ignored() {
    let identity = ServerIdentity::generate();
    let mut server = ServerCore::new(PSK, false);
    let f = serialize_message(&HandshakeMessage::ServerFinish { success: true }).unwrap();
    assert!(matches!(server.handle_datagram(&identity, ep(1, 1), &f), Forward::Drop));
    let f = serialize_message(&HandshakeMessage::ClientFinish { encrypted_confirm: vec![1, 2, 3] }).unwrap();
    assert!(matches!(server.handle_datagram(&identity, ep(1, 1), &f), Forward::Drop));
    assert!(server.session_of(ep(1, 1)).is_none());
}

#[test]
fn hello_with_bad_kem_key_is_dropped() {
    let identity = ServerIdentity::generate();
    let mut server = ServerCore::new(PSK, false);
    let hello = HandshakeMessage::ClientHello {
        client_pubkey: [1u8; 32],
        client_mlkem_pk: vec![0u8; 10],
        client_id: "x".to_string(),
        virtual_ip: "10.0.0.2".to_string(),
    };
    let bytes = serialize_message(&hello).unwrap();
    assert!(matches!(server.handle_datagram(&identity, ep(1, 1), &bytes), Forward::Drop));
    assert!(server.session_of(ep(1, 1)).is_none());
    assert_eq!(server.peer_of(0x0a00_0002), None);
}

#[test]
fn endpoint_keys_are_distinct() {
    assert_ne!(ep(1, 2).key(), ep(2, 1).key());
    assert_eq!(ep(1, 2).key(), (u32::from_be_bytes([127, 0, 0, 1]) as u64) * 65536 + 2);
}
