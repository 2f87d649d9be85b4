//! The server's forwarding core: the session table, the peer table, and what
//! to do with each datagram from a client and each packet from the TUN device.
//!
//! The decisions are made here; sending, receiving and the locks around the
//! tables belong to the caller.
use vstd::prelude::*;
use vstd::utf8::encode_utf8;
use std::collections::HashMap;
use crate::codec::{HandshakeMessage, MessageModel, decode_spec, deserialize_message, encode_spec, serialize_message};
use crate::handshake::{ServerHandshake, server_key_spec, transcript, transcript_spec, x25519_public};
use crate::identity::{ServerIdentity, ed25519_sign_of};
use crate::packet::{addr_at, destination_of, in_vpn_subnet, in_vpn_subnet_spec, ipv4_text_spec, parse_ipv4_header, parse_virtual_ip};
use crate::record::{Cipher, fits_message, open_record_spec, record_spec};

verus! {

broadcast use vstd::std_specs::hash::group_hash_axioms;

/// A client's UDP endpoint: IPv4 address and port.
#[derive(Debug, Clone, Copy, PartialEq, Eq, Structural)]
pub struct Endpoint {
    pub ip: u32,
    pub port: u16,
}

impl Endpoint {
    /// The table key of an endpoint: address and port in one number.
    pub open spec fn key_spec(self) -> u64 {
        (self.ip as int * 65536 + self.port as int) as u64
    }

    /// The table key of an endpoint.
    pub fn key(&self) -> (r: u64)
        ensures
            r == self.key_spec(),
    {
        (self.ip as u64) * 65536 + (self.port as u64)
    }
}

/// What the server keeps of one client: where it is and its session key.
#[derive(Clone, Copy)]
pub struct Session {
    pub endpoint: Endpoint,
    pub session_key: [u8; 32],
}

/// Where a decrypted datagram goes.
pub enum Route {
    /// Nowhere.
    Drop,
    /// To another client, sealed under that client's session key.
    ToPeer { endpoint: Endpoint, session_key: [u8; 32], packet: Vec<u8> },
    /// Into the local TUN device, towards the internet.
    ToTun { packet: Vec<u8> },
}

/// What the caller is to do.
pub enum Forward {
    /// Nothing.
    Drop,
    /// Send a datagram to a client.
    Send { to: Endpoint, datagram: Vec<u8> },
    /// Write an IP packet to the TUN device.
    WriteTun { packet: Vec<u8> },
}

/// The source and destination of a packet with a valid IPv4 header.
pub open spec fn header_spec(p: Seq<u8>) -> Option<(u32, u32)> {
    if p.len() >= 20 && p[0] / 16 == 4 {
        Some((addr_at(p, 12), addr_at(p, 16)))
    } else {
        None
    }
}

/// What a datagram from `src` opens to under the session key of `src`.
pub open spec fn opened_spec(sessions: Map<u64, Session>, src: Endpoint, frame: Seq<u8>) -> Option<
    Seq<u8>,
> {
    if sessions.contains_key(src.key_spec()) && frame.len() >= 12 {
        open_record_spec(sessions[src.key_spec()].session_key@, frame)
    } else {
        None
    }
}

/// The peer table after a datagram from `src`: the source address of the
/// packet it carries, if it opens and parses, now maps to `src`.
pub open spec fn learned_spec(
    sessions: Map<u64, Session>,
    peers: Map<u32, Endpoint>,
    src: Endpoint,
    frame: Seq<u8>,
) -> Map<u32, Endpoint> {
    match opened_spec(sessions, src, frame) {
        Some(p) => match header_spec(p) {
            Some((s, _d)) => peers.insert(s, src),
            None => peers,
        },
        None => peers,
    }
}

/// Each session sits under its endpoint's key, and each peer points to an
/// endpoint that has a session.
pub open spec fn tables_wf(sessions: Map<u64, Session>, peers: Map<u32, Endpoint>) -> bool {
    &&& forall|k: u64| #[trigger]
        sessions.contains_key(k) ==> sessions[k].endpoint.key_spec() == k
    &&& forall|v: u32| #[trigger]
        peers.contains_key(v) ==> sessions.contains_key(peers[v].key_spec())
}

proof fn lemma_insert_session(
    sessions: Map<u64, Session>,
    peers: Map<u32, Endpoint>,
    k: u64,
    s: Session,
)
    requires
        tables_wf(sessions, peers),
        s.endpoint.key_spec() == k,
    ensures
        tables_wf(sessions.insert(k, s), peers),
{
    let n = sessions.insert(k, s);
    assert forall|j: u64| #[trigger] n.contains_key(j) implies n[j].endpoint.key_spec() == j by {
        if j != k {
            assert(sessions.contains_key(j));
        }
    }
    assert forall|v: u32| #[trigger] peers.contains_key(v) implies n.contains_key(
        peers[v].key_spec(),
    ) by {
        assert(sessions.contains_key(peers[v].key_spec()));
    }
}

proof fn lemma_insert_peer(sessions: Map<u64, Session>, peers: Map<u32, Endpoint>, v: u32, e: Endpoint)
    requires
        tables_wf(sessions, peers),
        sessions.contains_key(e.key_spec()),
    ensures
        tables_wf(sessions, peers.insert(v, e)),
{
    let n = peers.insert(v, e);
    assert forall|w: u32| #[trigger] n.contains_key(w) implies sessions.contains_key(
        n[w].key_spec(),
    ) by {
        if w != v {
            assert(peers.contains_key(w));
        }
    }
}

/// The peer table after a `ClientHello` from `src` that declares
/// `virtual_ip`: the address, where the text is a dotted IPv4 address, maps
/// to `src`.
pub open spec fn peers_after_hello(peers: Map<u32, Endpoint>, src: Endpoint, virtual_ip: Seq<char>) -> Map<
    u32,
    Endpoint,
> {
    match ipv4_text_spec(encode_utf8(virtual_ip)) {
        Some(v) => peers.insert(v, src),
        None => peers,
    }
}

/// The encoded `ServerHello` of a server whose ephemeral secret is `s`: its
/// public key, the ciphertext, and the identity's signature over `sE ‖ cE`.
pub open spec fn answer_of(identity: ServerIdentity, s: Seq<u8>, ct: Seq<u8>, client_pubkey: Seq<u8>) -> Seq<
    u8,
> {
    encode_spec(
        MessageModel::ServerHello {
            server_pubkey: x25519_public(s),
            mlkem_ciphertext: ct,
            signature: ed25519_sign_of(
                identity.secret_key(),
                transcript_spec(x25519_public(s), client_pubkey),
            ),
        },
    )
}

/// A `ClientHello` from `src` was answered with `reply`: `src` has a new
/// session, keyed with what a server of some ephemeral secret `s` derives
/// from `client_pubkey` and some encapsulated secret; `reply` is the
/// `ServerHello` of `s` with a 1088-byte ciphertext; the declared address maps
/// to `src`.
pub open spec fn hello_answered(
    before: ServerCore,
    after: ServerCore,
    identity: ServerIdentity,
    src: Endpoint,
    client_pubkey: Seq<u8>,
    virtual_ip: Seq<char>,
    reply: Seq<u8>,
) -> bool {
    &&& after.sessions().contains_key(src.key_spec())
    &&& after.sessions() == before.sessions().insert(src.key_spec(), after.sessions()[src.key_spec()])
    &&& after.sessions()[src.key_spec()].endpoint == src
    &&& after.peers() == peers_after_hello(before.peers(), src, virtual_ip)
    &&& exists|s: Seq<u8>, ct: Seq<u8>, ss: Seq<u8>|
        s.len() == 32 && ct.len() == 1088 && #[trigger] answer_of(identity, s, ct, client_pubkey)
            == reply && after.sessions()[src.key_spec()].session_key@ == #[trigger] server_key_spec(
            s,
            client_pubkey,
            ss,
            before.psk(),
        )
}

/// What becomes of a data record `frame` from `src`, given the tables before
/// and after it: nothing unless it opens under the session key of `src` and
/// carries an IPv4 packet; then the packet goes, sealed afresh, to the client
/// that owns its destination address; else, outside the VPN subnet and in
/// gateway mode, into the TUN device; else nowhere.
pub open spec fn data_forwarded(
    before: ServerCore,
    after: ServerCore,
    src: Endpoint,
    frame: Seq<u8>,
    r: Forward,
) -> bool {
    match opened_spec(before.sessions(), src, frame) {
        None => r is Drop,
        Some(p) => match header_spec(p) {
            None => r is Drop,
            Some((_s, d)) => {
                &&& after.peers().contains_key(d) ==> (r matches Forward::Send { to, datagram }
                    && to == after.peers()[d] && datagram@ == record_spec(
                    after.sessions()[to.key_spec()].session_key@,
                    datagram@.subrange(0, 12),
                    p,
                ))
                &&& !after.peers().contains_key(d) && (in_vpn_subnet_spec(d) || !before.gateway())
                    ==> r is Drop
                &&& !after.peers().contains_key(d) && !in_vpn_subnet_spec(d) && before.gateway()
                    ==> (r matches Forward::WriteTun { packet } && packet@ == p)
            },
        },
    }
}

/// The session and peer tables of the server.
pub struct ServerCore {
    sessions: HashMap<u64, Session>,
    peers: HashMap<u32, Endpoint>,
    psk: [u8; 32],
    gateway: bool,
}

impl ServerCore {
    /// The session table, by endpoint key.
    pub closed spec fn sessions(&self) -> Map<u64, Session> {
        self.sessions@
    }

    /// The peer table: virtual address to endpoint.
    pub closed spec fn peers(&self) -> Map<u32, Endpoint> {
        self.peers@
    }

    /// The pre-shared key.
    pub closed spec fn psk(&self) -> Seq<u8> {
        self.psk@
    }

    /// Whether packets for the internet go to the TUN device.
    pub closed spec fn gateway(&self) -> bool {
        self.gateway
    }

    /// Each session sits under its endpoint's key, and each peer points to an
    /// endpoint that has a session.
    pub open spec fn wf(&self) -> bool {
        tables_wf(self.sessions(), self.peers())
    }

    /// Empty tables.
    pub fn new(psk: [u8; 32], gateway: bool) -> (r: ServerCore)
        ensures
            r.wf(),
            r.sessions() == Map::<u64, Session>::empty(),
            r.peers() == Map::<u32, Endpoint>::empty(),
            r.psk() == psk@,
            r.gateway() == gateway,
    {
        ServerCore { sessions: HashMap::new(), peers: HashMap::new(), psk, gateway }
    }

    /// The session of an endpoint, if it has one.
    pub fn session_of(&self, e: Endpoint) -> (r: Option<Session>)
        ensures
            r is Some <==> self.sessions().contains_key(e.key_spec()),
            r matches Some(s) ==> s == self.sessions()[e.key_spec()],
    {
        match self.sessions.get(&e.key()) {
            Some(s) => Some(*s),
            None => None,
        }
    }

    /// The endpoint a virtual address maps to, if any.
    pub fn peer_of(&self, vip: u32) -> (r: Option<Endpoint>)
        ensures
            r is Some <==> self.peers().contains_key(vip),
            r matches Some(e) ==> e == self.peers()[vip],
    {
        match self.peers.get(&vip) {
            Some(e) => Some(*e),
            None => None,
        }
    }

    /// Records the session of `src`, replacing an earlier one, and maps the
    /// declared virtual address to `src` where it is a dotted IPv4 address.
    pub fn install_session(&mut self, src: Endpoint, session_key: [u8; 32], virtual_ip: &str)
        requires
            old(self).wf(),
        ensures
            final(self).wf(),
            final(self).sessions() == old(self).sessions().insert(
                src.key_spec(),
                (Session { endpoint: src, session_key }),
            ),
            final(self).peers() == peers_after_hello(old(self).peers(), src, virtual_ip@),
            final(self).psk() == old(self).psk(),
            final(self).gateway() == old(self).gateway(),
    {
        proof {
            lemma_insert_session(
                self.sessions(),
                self.peers(),
                src.key_spec(),
                Session { endpoint: src, session_key },
            );
        }
        self.sessions.insert(src.key(), Session { endpoint: src, session_key });
        if let Some(v) = parse_virtual_ip(virtual_ip) {
            proof {
                lemma_insert_peer(self.sessions(), self.peers(), v, src);
            }
            self.peers.insert(v, src);
        }
    }

    /// Answers a `ClientHello` from `src` with the server handshake `hs` and
    /// the ML-KEM ciphertext and secret encapsulated to the client's key:
    /// signs `sE ‖ cE` with the server's identity, derives the session key,
    /// records the session and the declared virtual address, and returns the
    /// encoded `ServerHello`.
    pub fn accept_hello(
        &mut self,
        identity: &ServerIdentity,
        src: Endpoint,
        hs: ServerHandshake,
        client_pubkey: [u8; 32],
        mlkem_ciphertext: Vec<u8>,
        mlkem_shared: [u8; 32],
        virtual_ip: &str,
    ) -> (r: Vec<u8>)
        requires
            old(self).wf(),
        ensures
            final(self).wf(),
            final(self).psk() == old(self).psk(),
            final(self).gateway() == old(self).gateway(),
            r@ == encode_spec(
                MessageModel::ServerHello {
                    server_pubkey: hs.public_key(),
                    mlkem_ciphertext: mlkem_ciphertext@,
                    signature: ed25519_sign_of(
                        identity.secret_key(),
                        transcript_spec(hs.public_key(), client_pubkey@),
                    ),
                },
            ),
            final(self).sessions() == old(self).sessions().insert(
                src.key_spec(),
                final(self).sessions()[src.key_spec()],
            ),
            final(self).sessions()[src.key_spec()].endpoint == src,
            final(self).sessions()[src.key_spec()].session_key@ == server_key_spec(
                hs.secret_key(),
                client_pubkey@,
                mlkem_shared@,
                hs.psk(),
            ),
            final(self).peers() == peers_after_hello(old(self).peers(), src, virtual_ip@),
    {
        let server_pubkey = hs.public_key_bytes();
        let signature = identity.sign(transcript(&server_pubkey, &client_pubkey).as_slice());
        let session_key = match hs.compute_session_key(client_pubkey, &mlkem_shared) {
            Ok(k) => k,
            Err(_) => [0u8; 32],
        };
        let signed = HandshakeMessage::ServerHello { server_pubkey, mlkem_ciphertext, signature };
        let reply = match serialize_message(&signed) {
            Ok(b) => b,
            Err(_) => Vec::new(),
        };
        self.install_session(src, session_key, virtual_ip);
        reply
    }

    /// Answers a `ClientHello` from `src` with a fresh ephemeral key and a
    /// fresh ML-KEM encapsulation to the client's key (see `accept_hello`).
    /// `None`, with nothing changed, where encapsulation fails: always for a
    /// public key that is not 1184 bytes long.
    pub fn handle_client_hello(
        &mut self,
        identity: &ServerIdentity,
        src: Endpoint,
        client_pubkey: [u8; 32],
        client_mlkem_pk: &[u8],
        virtual_ip: &str,
    ) -> (r: Option<Vec<u8>>)
        requires
            old(self).wf(),
        ensures
            final(self).wf(),
            final(self).psk() == old(self).psk(),
            final(self).gateway() == old(self).gateway(),
            client_mlkem_pk@.len() != 1184 ==> r is None,
            r is None ==> final(self).sessions() == old(self).sessions() && final(self).peers()
                == old(self).peers(),
            r matches Some(reply) ==> hello_answered(
                *old(self),
                *final(self),
                *identity,
                src,
                client_pubkey@,
                virtual_ip@,
                reply@,
            ),
    {
        let hs = ServerHandshake::new(&self.psk);
        let ghost s = hs.secret_key();
        let (hello, shared) = match hs.process_client_hello(client_pubkey, client_mlkem_pk) {
            Ok(x) => x,
            Err(_) => return None,
        };
        let mlkem_ciphertext = match hello {
            HandshakeMessage::ServerHello { mlkem_ciphertext, .. } => mlkem_ciphertext,
            _ => return None,
        };
        let ghost ct = mlkem_ciphertext@;
        let reply = self.accept_hello(
            identity,
            src,
            hs,
            client_pubkey,
            mlkem_ciphertext,
            shared,
            virtual_ip,
        );
        assert(answer_of(*identity, s, ct, client_pubkey@) == reply@);
        assert(self.sessions()[src.key_spec()].session_key@ == server_key_spec(
            s,
            client_pubkey@,
            shared@,
            old(self).psk(),
        ));
        Some(reply)
    }

    /// Decides where a data record from `src` goes. The record must open
    /// under the session key of `src` and carry an IPv4 packet; its source
    /// address is then learnt as belonging to `src`. The packet goes to the
    /// client that owns its destination; else, outside the VPN subnet and in
    /// gateway mode, to the TUN device; else nowhere.
    pub fn route_data(&mut self, src: Endpoint, frame: &[u8]) -> (r: Route)
        requires
            old(self).wf(),
        ensures
            final(self).wf(),
            final(self).sessions() == old(self).sessions(),
            final(self).psk() == old(self).psk(),
            final(self).gateway() == old(self).gateway(),
            final(self).peers() == learned_spec(old(self).sessions(), old(self).peers(), src, frame@),
            r matches Route::ToPeer { packet, .. } ==> fits_message(packet@),
            opened_spec(old(self).sessions(), src, frame@) is None ==> r is Drop,
            opened_spec(old(self).sessions(), src, frame@) matches Some(p) ==> match header_spec(p) {
                None => r is Drop,
                Some((s, d)) => {
                    &&& final(self).peers()[s] == src
                    &&& final(self).peers().contains_key(d) ==> (r matches Route::ToPeer {
                        endpoint,
                        session_key,
                        packet,
                    } && endpoint == final(self).peers()[d] && session_key == final(self).sessions()[endpoint.key_spec()].session_key && packet@ == p)
                    &&& !final(self).peers().contains_key(d) && (in_vpn_subnet_spec(d)
                        || !old(self).gateway()) ==> r is Drop
                    &&& !final(self).peers().contains_key(d) && !in_vpn_subnet_spec(d) && old(self).gateway() ==> (r matches Route::ToTun { packet } && packet@ == p)
                },
            },
    {
        let session = match self.session_of(src) {
            Some(s) => s,
            None => return Route::Drop,
        };
        if frame.len() < 12 {
            return Route::Drop;
        }
        let cipher = match Cipher::new(session.session_key.as_slice()) {
            Ok(c) => c,
            Err(_) => return Route::Drop,
        };
        let packet = match cipher.decrypt(frame) {
            Ok(p) => p,
            Err(_) => return Route::Drop,
        };
        let (sip, dip) = match parse_ipv4_header(packet.as_slice()) {
            Ok(x) => x,
            Err(_) => return Route::Drop,
        };
        proof {
            lemma_insert_peer(self.sessions(), self.peers(), sip, src);
        }
        self.peers.insert(sip, src);
        match self.peer_of(dip) {
            Some(endpoint) => {
                let target = match self.session_of(endpoint) {
                    Some(t) => t,
                    None => return Route::Drop,
                };
                Route::ToPeer { endpoint, session_key: target.session_key, packet }
            },
            None => {
                if in_vpn_subnet(dip) || !self.gateway {
                    Route::Drop
                } else {
                    Route::ToTun { packet }
                }
            },
        }
    }

    /// Handles a data record from `src`: routes it, and seals the packet
    /// afresh under the destination client's key where it goes to a client.
    pub fn handle_data_packet(&mut self, src: Endpoint, frame: &[u8]) -> (r: Forward)
        requires
            old(self).wf(),
        ensures
            final(self).wf(),
            final(self).sessions() == old(self).sessions(),
            final(self).psk() == old(self).psk(),
            final(self).gateway() == old(self).gateway(),
            final(self).peers() == learned_spec(old(self).sessions(), old(self).peers(), src, frame@),
            data_forwarded(*old(self), *final(self), src, frame@, r),
    {
        match self.route_data(src, frame) {
            Route::Drop => Forward::Drop,
            Route::ToTun { packet } => Forward::WriteTun { packet },
            Route::ToPeer { endpoint, session_key, packet } => {
                let cipher = match Cipher::new(session_key.as_slice()) {
                    Ok(c) => c,
                    Err(_) => return Forward::Drop,
                };
                match cipher.encrypt(packet.as_slice()) {
                    Ok(datagram) => Forward::Send { to: endpoint, datagram },
                    Err(_) => Forward::Drop,
                }
            },
        }
    }

    /// Handles one UDP datagram from `src`: a handshake frame where it decodes
    /// as one (only `ClientHello` is answered), a data record otherwise.
    pub fn handle_datagram(&mut self, identity: &ServerIdentity, src: Endpoint, data: &[u8]) -> (r:
        Forward)
        requires
            old(self).wf(),
        ensures
            final(self).wf(),
            final(self).psk() == old(self).psk(),
            final(self).gateway() == old(self).gateway(),
            decode_spec(data@) is None ==> final(self).sessions() == old(self).sessions()
                && final(self).peers() == learned_spec(
                old(self).sessions(),
                old(self).peers(),
                src,
                data@,
            ) && data_forwarded(*old(self), *final(self), src, data@, r),
            decode_spec(data@) matches Some(m) && !(m is ClientHello) ==> r is Drop && final(self).sessions() == old(self).sessions() && final(self).peers() == old(self).peers(),
            decode_spec(data@) matches Some(
                MessageModel::ClientHello { client_pubkey, virtual_ip, .. },
            ) ==> (r is Drop && final(self).sessions() == old(self).sessions() && final(self).peers()
                == old(self).peers()) || (r matches Forward::Send { to, datagram } && to == src
                && hello_answered(
                *old(self),
                *final(self),
                *identity,
                src,
                client_pubkey,
                virtual_ip,
                datagram@,
            )),
    {
        match deserialize_message(data) {
            Ok(HandshakeMessage::ClientHello { client_pubkey, client_mlkem_pk, virtual_ip, .. }) => {
                match self.handle_client_hello(
                    identity,
                    src,
                    client_pubkey,
                    client_mlkem_pk.as_slice(),
                    virtual_ip.as_str(),
                ) {
                    Some(reply) => Forward::Send { to: src, datagram: reply },
                    None => Forward::Drop,
                }
            },
            Ok(_) => Forward::Drop,
            Err(_) => self.handle_data_packet(src, data),
        }
    }

    /// Where a packet that the TUN device delivered goes: to the client that
    /// owns its destination address, with that client's session key.
    pub fn route_from_tun(&self, packet: &[u8]) -> (r: Option<(Endpoint, [u8; 32])>)
        requires
            self.wf(),
        ensures
            packet@.len() < 20 ==> r is None,
            packet@.len() >= 20 ==> (self.peers().contains_key(addr_at(packet@, 16)) <==> r is Some),
            r matches Some(t) ==> t.0 == self.peers()[addr_at(packet@, 16)] && t.1
                == self.sessions()[t.0.key_spec()].session_key,
    {
        let dst = match destination_of(packet) {
            Some(d) => d,
            None => return None,
        };
        let endpoint = match self.peer_of(dst) {
            Some(e) => e,
            None => return None,
        };
        match self.session_of(endpoint) {
            Some(s) => Some((endpoint, s.session_key)),
            None => None,
        }
    }

    /// Seals a packet from the TUN device for the client that owns its
    /// destination address.
    pub fn handle_tun_packet(&self, packet: &[u8]) -> (r: Option<(Endpoint, Vec<u8>)>)
        requires
            self.wf(),
        ensures
            packet@.len() < 20 ==> r is None,
            r matches Some(t) ==> packet@.len() >= 20 && t.0 == self.peers()[addr_at(packet@, 16)]
                && t.1@ == record_spec(
                self.sessions()[t.0.key_spec()].session_key@,
                t.1@.subrange(0, 12),
                packet@,
            ),
            packet@.len() >= 20 && packet@.len() < 0x1_0000_0000 ==> (self.peers().contains_key(
                addr_at(packet@, 16),
            ) <==> r is Some),
    {
        let (endpoint, key) = match self.route_from_tun(packet) {
            Some(t) => t,
            None => return None,
        };
        let cipher = match Cipher::new(key.as_slice()) {
            Ok(c) => c,
            Err(_) => return None,
        };
        match cipher.encrypt(packet) {
            Ok(datagram) => Some((endpoint, datagram)),
            Err(_) => None,
        }
    }
}

} // verus!
