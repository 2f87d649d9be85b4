//! The hybrid handshake: X25519 and ML-KEM-768 shared secrets and the
//! pre-shared key, bound together by BLAKE3 into one session key.
use vstd::prelude::*;
use vstd::utf8::*;
use rand::rngs::OsRng;
use rand::RngCore;
use crate::buf::push_all;
use crate::codec::{HandshakeMessage, MessageModel};
use crate::record::{Cipher, open_record_spec, record_spec};

verus! {

/// Length of an ML-KEM-768 public key.
pub const KEM_PUBLIC_KEY_SIZE: usize = 1184;

/// Length of an ML-KEM-768 secret key.
pub const KEM_SECRET_KEY_SIZE: usize = 2400;

/// Length of an ML-KEM-768 ciphertext.
pub const KEM_CIPHERTEXT_SIZE: usize = 1088;

/// The domain-separation label of the hybrid session key.
pub const HYBRID_LABEL: &'static str = "VPN_HYBRID_SESSION_KEY_V2";

/// The domain-separation label of the classical session key.
pub const CLASSIC_LABEL: &'static str = "VPN_SESSION_KEY_V1";

/// The key confirmation that `ClientFinish` carries.
pub const CLIENT_FINISH_CONFIRM: &'static str = "CLIENT_FINISH_CONFIRM";

/// X25519 of the scalar `k` and the u-coordinate `u`.
pub uninterp spec fn x25519_of(k: Seq<u8>, u: Seq<u8>) -> Seq<u8>;

/// The shared secret that ML-KEM-768 decapsulation of `ct` with `sk` yields.
pub uninterp spec fn kyber_decap_of(ct: Seq<u8>, sk: Seq<u8>) -> Seq<u8>;

/// The 32-byte BLAKE3 digest of `input`.
pub uninterp spec fn blake3_of(input: Seq<u8>) -> Seq<u8>;

/// The u-coordinate of the X25519 base point.
pub open spec fn basepoint() -> Seq<u8> {
    seq![9u8] + Seq::new(31, |i: int| 0u8)
}

/// The X25519 public key of a secret.
pub open spec fn x25519_public(secret: Seq<u8>) -> Seq<u8> {
    x25519_of(secret, basepoint())
}

/// The bytes of the hybrid label.
pub open spec fn hybrid_label() -> Seq<u8> {
    encode_utf8(HYBRID_LABEL@)
}

/// The bytes that the hybrid session key is the digest of.
pub open spec fn hybrid_input(label: Seq<u8>, ecdh: Seq<u8>, kem: Seq<u8>, psk: Seq<u8>) -> Seq<
    u8,
> {
    label + ecdh + kem + psk
}

/// The hybrid session key: BLAKE3 over the label, the X25519 secret, the
/// ML-KEM secret and the pre-shared key, in that order.
pub open spec fn hybrid_key_spec(ecdh: Seq<u8>, kem: Seq<u8>, psk: Seq<u8>) -> Seq<u8> {
    blake3_of(hybrid_input(hybrid_label(), ecdh, kem, psk))
}

/// The classical session key: BLAKE3 over its label, the X25519 secret and
/// the pre-shared key.
pub open spec fn classic_key_spec(ecdh: Seq<u8>, psk: Seq<u8>) -> Seq<u8> {
    blake3_of(encode_utf8(CLASSIC_LABEL@) + ecdh + psk)
}

/// The session key that a server with ephemeral secret `s` derives from the
/// client's X25519 public key, the encapsulated secret and the pre-shared key.
pub open spec fn server_key_spec(s: Seq<u8>, client_pub: Seq<u8>, kem: Seq<u8>, psk: Seq<u8>) -> Seq<
    u8,
> {
    hybrid_key_spec(x25519_of(s, client_pub), kem, psk)
}

/// What the server signs: its X25519 public key, then the client's.
pub open spec fn transcript_spec(server_pub: Seq<u8>, client_pub: Seq<u8>) -> Seq<u8> {
    server_pub + client_pub
}

/// Relies on `x25519_dalek::x25519`: X25519 of a scalar and a u-coordinate,
/// which commutes on public keys (`x25519(k, x25519(b, G)) == x25519(b,
/// x25519(k, G))`).
#[verifier::external_body]
fn x25519(k: [u8; 32], u: [u8; 32]) -> (r: [u8; 32])
    ensures
        r@ == x25519_of(k@, u@),
        forall|b: Seq<u8>|
            b.len() == 32 && u@ == #[trigger] x25519_public(b) ==> r@ == x25519_of(
                b,
                x25519_public(k@),
            ),
{
    x25519_dalek::x25519(k, u)
}

/// Relies on `RngCore::fill_bytes` of the operating system's generator: 32
/// random bytes.
#[verifier::external_body]
fn random_secret() -> (r: [u8; 32]) {
    let mut a = [0u8; 32];
    OsRng.fill_bytes(&mut a);
    a
}

/// Relies on `pqc_kyber::keypair` with the operating system's generator: a
/// fresh ML-KEM-768 key pair (public, secret), unless the generator fails.
#[verifier::external_body]
fn kyber_keypair() -> (r: Option<(Vec<u8>, Vec<u8>)>)
    ensures
        r matches Some(kp) ==> kp.0@.len() == 1184 && kp.1@.len() == 2400,
{
    match pqc_kyber::keypair(&mut OsRng) {
        Ok(kp) => Some((kp.public.to_vec(), kp.secret.to_vec())),
        Err(_) => None,
    }
}

/// Relies on `pqc_kyber::encapsulate` with the operating system's generator: a
/// ciphertext and a shared secret for a 1184-byte public key; any other length
/// is refused, and so is a failing generator.
#[verifier::external_body]
fn kyber_encapsulate(pk: &[u8]) -> (r: Option<(Vec<u8>, [u8; 32])>)
    ensures
        pk@.len() != 1184 ==> r is None,
        r matches Some(e) ==> e.0@.len() == 1088,
{
    match pqc_kyber::encapsulate(pk, &mut OsRng) {
        Ok((ct, ss)) => Some((ct.to_vec(), ss)),
        Err(_) => None,
    }
}

/// Relies on `pqc_kyber::decapsulate`: it refuses a ciphertext that is not
/// 1088 bytes or a secret key that is not 2400 bytes, and otherwise returns
/// the shared secret.
#[verifier::external_body]
fn kyber_decapsulate(ct: &[u8], sk: &[u8]) -> (r: Option<[u8; 32]>)
    ensures
        r is Some <==> (ct@.len() == 1088 && sk@.len() == 2400),
        r matches Some(ss) ==> ss@ == kyber_decap_of(ct@, sk@),
{
    pqc_kyber::decapsulate(ct, sk).ok()
}

/// Relies on `blake3::hash`: the 32-byte digest of the input.
#[verifier::external_body]
fn blake3_hash(input: &[u8]) -> (r: [u8; 32])
    ensures
        r@ == blake3_of(input@),
{
    *blake3::hash(input).as_bytes()
}

/// The X25519 base point.
fn basepoint_bytes() -> (r: [u8; 32])
    ensures
        r@ == basepoint(),
{
    let mut g = [0u8; 32];
    g[0] = 9;
    assert(g@ =~= basepoint());
    g
}

/// Derives the hybrid session key from the two shared secrets and the
/// pre-shared key.
pub fn derive_hybrid_session_key(ecdh_shared: &[u8], mlkem_shared: &[u8], psk: &[u8; 32]) -> (r: [u8;
    32])
    ensures
        r@ == hybrid_key_spec(ecdh_shared@, mlkem_shared@, psk@),
{
    let mut input: Vec<u8> = Vec::new();
    push_all(&mut input, HYBRID_LABEL.as_bytes());
    push_all(&mut input, ecdh_shared);
    push_all(&mut input, mlkem_shared);
    push_all(&mut input, psk.as_slice());
    blake3_hash(input.as_slice())
}

/// Derives the classical session key from the X25519 shared secret and the
/// pre-shared key.
pub fn derive_session_key(ecdh_shared: &[u8], psk: &[u8; 32]) -> (r: [u8; 32])
    ensures
        r@ == classic_key_spec(ecdh_shared@, psk@),
{
    let mut input: Vec<u8> = Vec::new();
    push_all(&mut input, CLASSIC_LABEL.as_bytes());
    push_all(&mut input, ecdh_shared);
    push_all(&mut input, psk.as_slice());
    blake3_hash(input.as_slice())
}

/// The bytes that the server signs: `server_pubkey ‖ client_pubkey`.
pub fn transcript(server_pubkey: &[u8; 32], client_pubkey: &[u8; 32]) -> (r: Vec<u8>)
    ensures
        r@ == transcript_spec(server_pubkey@, client_pubkey@),
{
    let mut out: Vec<u8> = Vec::new();
    push_all(&mut out, server_pubkey.as_slice());
    push_all(&mut out, client_pubkey.as_slice());
    out
}

/// Why a handshake step failed.
#[derive(Debug, Clone, Copy, PartialEq, Eq, Structural)]
pub enum HandshakeError {
    /// The random generator could not produce an ML-KEM key pair.
    KeyGeneration,
    /// ML-KEM encapsulation failed (a public key of the wrong length, or a
    /// failing generator).
    Encapsulation,
    /// ML-KEM decapsulation refused the ciphertext.
    Decapsulation,
    /// A key confirmation could not be sealed.
    Sealing,
    /// A key confirmation did not open to the expected bytes.
    ConfirmationMismatch,
}

/// The client's side of one handshake: ephemeral X25519 and ML-KEM key pairs
/// and the pre-shared key. It is consumed when the session key is derived.
pub struct ClientHandshake {
    secret: [u8; 32],
    public: [u8; 32],
    kem_public: Vec<u8>,
    kem_secret: Vec<u8>,
    psk: [u8; 32],
}

impl ClientHandshake {
    #[verifier::type_invariant]
    spec fn inv(&self) -> bool {
        &&& self.public@ == x25519_public(self.secret@)
        &&& self.kem_public@.len() == 1184
        &&& self.kem_secret@.len() == 2400
    }

    /// The ephemeral X25519 secret.
    pub closed spec fn secret_key(&self) -> Seq<u8> {
        self.secret@
    }

    /// The ephemeral X25519 public key.
    pub open spec fn public_key(&self) -> Seq<u8> {
        x25519_public(self.secret_key())
    }

    /// The ML-KEM public key.
    pub closed spec fn kem_public_key(&self) -> Seq<u8> {
        self.kem_public@
    }

    /// The ML-KEM secret key.
    pub closed spec fn kem_secret_key(&self) -> Seq<u8> {
        self.kem_secret@
    }

    /// The pre-shared key.
    pub closed spec fn psk(&self) -> Seq<u8> {
        self.psk@
    }

    /// A client handshake from its ephemeral secrets; `None` where the ML-KEM
    /// keys do not have their lengths (1184 and 2400 bytes).
    pub fn from_parts(secret: [u8; 32], kem_public: Vec<u8>, kem_secret: Vec<u8>, psk: &[u8; 32]) -> (r:
        Option<ClientHandshake>)
        ensures
            r is Some <==> kem_public@.len() == 1184 && kem_secret@.len() == 2400,
            r matches Some(c) ==> c.secret_key() == secret@ && c.kem_public_key() == kem_public@
                && c.kem_secret_key() == kem_secret@ && c.psk() == psk@,
    {
        if kem_public.len() != KEM_PUBLIC_KEY_SIZE || kem_secret.len() != KEM_SECRET_KEY_SIZE {
            return None;
        }
        let public = x25519(secret, basepoint_bytes());
        Some(ClientHandshake { secret, public, kem_public, kem_secret, psk: *psk })
    }

    /// A client handshake with fresh random ephemeral keys.
    pub fn new(psk: &[u8; 32]) -> (r: Result<ClientHandshake, HandshakeError>)
        ensures
            r matches Ok(c) ==> c.psk() == psk@,
            r matches Err(e) ==> e == HandshakeError::KeyGeneration,
    {
        let secret = random_secret();
        match kyber_keypair() {
            Some((kem_public, kem_secret)) => match ClientHandshake::from_parts(
                secret,
                kem_public,
                kem_secret,
                psk,
            ) {
                Some(c) => Ok(c),
                None => Err(HandshakeError::KeyGeneration),
            },
            None => Err(HandshakeError::KeyGeneration),
        }
    }

    /// The `ClientHello` that opens this handshake.
    pub fn create_client_hello(&self, client_id: String, virtual_ip: String) -> (r: HandshakeMessage)
        ensures
            r@ == (MessageModel::ClientHello {
                client_pubkey: self.public_key(),
                client_mlkem_pk: self.kem_public_key(),
                client_id: client_id@,
                virtual_ip: virtual_ip@,
            }),
    {
        proof {
            use_type_invariant(self);
        }
        HandshakeMessage::ClientHello {
            client_pubkey: self.public,
            client_mlkem_pk: self.kem_public.clone(),
            client_id,
            virtual_ip,
        }
    }

    /// Derives the session key from the server's X25519 public key and ML-KEM
    /// ciphertext, consuming the handshake. The key is the one that a server
    /// whose ephemeral public key is `server_pubkey` derives from this client's
    /// public key and the secret it encapsulated, when decapsulation yields
    /// that secret.
    pub fn process_server_hello(self, server_pubkey: [u8; 32], mlkem_ciphertext: &[u8]) -> (r: Result<
        [u8; 32],
        HandshakeError,
    >)
        ensures
            r is Ok <==> mlkem_ciphertext@.len() == 1088,
            r matches Err(e) ==> e == HandshakeError::Decapsulation,
            r matches Ok(k) ==> k@ == hybrid_key_spec(
                x25519_of(self.secret_key(), server_pubkey@),
                kyber_decap_of(mlkem_ciphertext@, self.kem_secret_key()),
                self.psk(),
            ),
            r matches Ok(k) ==> forall|s: Seq<u8>|
                s.len() == 32 && server_pubkey@ == #[trigger] x25519_public(s) ==> k@
                    == server_key_spec(
                    s,
                    self.public_key(),
                    kyber_decap_of(mlkem_ciphertext@, self.kem_secret_key()),
                    self.psk(),
                ),
    {
        proof {
            use_type_invariant(&self);
        }
        let ecdh = x25519(self.secret, server_pubkey);
        match kyber_decapsulate(mlkem_ciphertext, self.kem_secret.as_slice()) {
            Some(kem) => Ok(derive_hybrid_session_key(ecdh.as_slice(), kem.as_slice(), &self.psk)),
            None => Err(HandshakeError::Decapsulation),
        }
    }

    /// A `ClientFinish` carrying the key confirmation sealed under the session
    /// key.
    pub fn create_client_finish(&self, session_key: &[u8; 32]) -> (r: Result<
        HandshakeMessage,
        HandshakeError,
    >)
        ensures
            r matches Ok(m) ==> m@ matches MessageModel::ClientFinish { encrypted_confirm }
                && encrypted_confirm == record_spec(
                session_key@,
                encrypted_confirm.subrange(0, 12),
                encode_utf8(CLIENT_FINISH_CONFIRM@),
            ),
            r is Ok,
    {
        let cipher = match Cipher::new(session_key.as_slice()) {
            Ok(c) => c,
            Err(_) => return Err(HandshakeError::Sealing),
        };
        let confirm = CLIENT_FINISH_CONFIRM.as_bytes();
        proof {
            reveal_strlit("CLIENT_FINISH_CONFIRM");
            assert(is_ascii_chars(CLIENT_FINISH_CONFIRM@));
            is_ascii_chars_encode_utf8(CLIENT_FINISH_CONFIRM@);
        }
        match cipher.encrypt(confirm) {
            Ok(encrypted_confirm) => Ok(HandshakeMessage::ClientFinish { encrypted_confirm }),
            Err(_) => Err(HandshakeError::Sealing),
        }
    }
}

/// The server's side of one handshake: an ephemeral X25519 key pair and the
/// pre-shared key. It is consumed when the session key is derived.
pub struct ServerHandshake {
    secret: [u8; 32],
    public: [u8; 32],
    psk: [u8; 32],
}

impl ServerHandshake {
    #[verifier::type_invariant]
    spec fn inv(&self) -> bool {
        self.public@ == x25519_public(self.secret@)
    }

    /// The ephemeral X25519 secret.
    pub closed spec fn secret_key(&self) -> Seq<u8> {
        self.secret@
    }

    /// The ephemeral X25519 public key.
    pub open spec fn public_key(&self) -> Seq<u8> {
        x25519_public(self.secret_key())
    }

    /// The pre-shared key.
    pub closed spec fn psk(&self) -> Seq<u8> {
        self.psk@
    }

    /// A server handshake from its ephemeral secret.
    pub fn from_secret(secret: [u8; 32], psk: &[u8; 32]) -> (r: ServerHandshake)
        ensures
            r.secret_key() == secret@,
            r.secret_key().len() == 32,
            r.psk() == psk@,
    {
        let public = x25519(secret, basepoint_bytes());
        ServerHandshake { secret, public, psk: *psk }
    }

    /// A server handshake with a fresh random ephemeral secret.
    pub fn new(psk: &[u8; 32]) -> (r: ServerHandshake)
        ensures
            r.secret_key().len() == 32,
            r.psk() == psk@,
    {
        ServerHandshake::from_secret(random_secret(), psk)
    }

    /// The ephemeral X25519 public key.
    pub fn public_key_bytes(&self) -> (r: [u8; 32])
        ensures
            r@ == self.public_key(),
    {
        proof {
            use_type_invariant(self);
        }
        self.public
    }

    /// Encapsulates a fresh ML-KEM secret to the client's public key, and
    /// returns the unsigned `ServerHello` with that secret.
    pub fn process_client_hello(&self, _client_pubkey: [u8; 32], client_mlkem_pk: &[u8]) -> (r:
        Result<(HandshakeMessage, [u8; 32]), HandshakeError>)
        ensures
            client_mlkem_pk@.len() != 1184 ==> r is Err,
            r matches Err(e) ==> e == HandshakeError::Encapsulation,
            r matches Ok(res) ==> res.0@ matches MessageModel::ServerHello {
                server_pubkey,
                mlkem_ciphertext,
                signature,
            } && server_pubkey == self.public_key() && mlkem_ciphertext.len() == 1088
                && signature.len() == 0,
    {
        proof {
            use_type_invariant(self);
        }
        match kyber_encapsulate(client_mlkem_pk) {
            Some((mlkem_ciphertext, shared)) => Ok(
                (
                    HandshakeMessage::ServerHello {
                        server_pubkey: self.public,
                        mlkem_ciphertext,
                        signature: Vec::new(),
                    },
                    shared,
                ),
            ),
            None => Err(HandshakeError::Encapsulation),
        }
    }

    /// Derives the session key from the client's X25519 public key and the
    /// encapsulated ML-KEM secret, consuming the handshake.
    pub fn compute_session_key(self, client_pubkey: [u8; 32], mlkem_shared: &[u8; 32]) -> (r: Result<
        [u8; 32],
        HandshakeError,
    >)
        ensures
            r matches Ok(k) && k@ == server_key_spec(
                self.secret_key(),
                client_pubkey@,
                mlkem_shared@,
                self.psk(),
            ),
    {
        let ecdh = x25519(self.secret, client_pubkey);
        Ok(derive_hybrid_session_key(ecdh.as_slice(), mlkem_shared.as_slice(), &self.psk))
    }

    /// Checks that a `ClientFinish` carries the key confirmation sealed under
    /// the session key.
    pub fn verify_client_finish(&self, encrypted_confirm: &[u8], session_key: &[u8; 32]) -> (r:
        Result<(), HandshakeError>)
        ensures
            r is Ok <==> encrypted_confirm@.len() >= 12 && open_record_spec(
                session_key@,
                encrypted_confirm@,
            ) == Some(encode_utf8(CLIENT_FINISH_CONFIRM@)),
    {
        let cipher = match Cipher::new(session_key.as_slice()) {
            Ok(c) => c,
            Err(_) => return Err(HandshakeError::ConfirmationMismatch),
        };
        let decrypted = match cipher.decrypt(encrypted_confirm) {
            Ok(d) => d,
            Err(_) => return Err(HandshakeError::ConfirmationMismatch),
        };
        let expected = CLIENT_FINISH_CONFIRM.as_bytes();
        if bytes_equal(decrypted.as_slice(), expected) {
            Ok(())
        } else {
            Err(HandshakeError::ConfirmationMismatch)
        }
    }

    /// A `ServerFinish` with the given verdict.
    pub fn create_server_finish(&self, success: bool) -> (r: HandshakeMessage)
        ensures
            r@ == (MessageModel::ServerFinish { success }),
    {
        HandshakeMessage::ServerFinish { success }
    }
}

/// Whether two byte strings are equal.
pub fn bytes_equal(a: &[u8], b: &[u8]) -> (r: bool)
    ensures
        r == (a@ == b@),
{
    if a.len() != b.len() {
        return false;
    }
    let mut i: usize = 0;
    while i < a.len()
        invariant
            i <= a@.len(),
            a@.len() == b@.len(),
            forall|j: int| 0 <= j < i ==> a@[j] == b@[j],
        decreases a@.len() - i,
    {
        if a[i] != b[i] {
            return false;
        }
        i += 1;
    }
    assert(a@ =~= b@);
    true
}

} // verus!
