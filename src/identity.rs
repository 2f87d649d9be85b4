//! The server's long-term Ed25519 identity, and the clients' view of it.
use vstd::prelude::*;
use ed25519_dalek::{Signature, Signer, SigningKey, Verifier, VerifyingKey};
use rand::rngs::OsRng;

verus! {

/// The Ed25519 public key of a 32-byte secret key, compressed to 32 bytes.
pub uninterp spec fn ed25519_public_of(secret: Seq<u8>) -> Seq<u8>;

/// The 64-byte Ed25519 signature of `msg` under a 32-byte secret key.
pub uninterp spec fn ed25519_sign_of(secret: Seq<u8>, msg: Seq<u8>) -> Seq<u8>;

/// Whether 32 bytes are the compressed form of a point of the curve.
pub uninterp spec fn ed25519_point_ok(public: Seq<u8>) -> bool;

/// Whether `sig` is a valid Ed25519 signature of `msg` under `public`.
pub uninterp spec fn ed25519_accepts(public: Seq<u8>, msg: Seq<u8>, sig: Seq<u8>) -> bool;

/// Relies on `SigningKey::generate` with the operating system's generator: a
/// fresh random secret key.
#[verifier::external_body]
fn ed25519_generate() -> (r: [u8; 32]) {
    SigningKey::generate(&mut OsRng).to_bytes()
}

/// Relies on `SigningKey::verifying_key`: the public key of a secret key.
#[verifier::external_body]
fn ed25519_public(secret: &[u8; 32]) -> (r: [u8; 32])
    ensures
        r@ == ed25519_public_of(secret@),
{
    SigningKey::from_bytes(secret).verifying_key().to_bytes()
}

/// Relies on `Signer::sign` of `SigningKey`: the 64-byte signature of a message.
#[verifier::external_body]
fn ed25519_sign(secret: &[u8; 32], msg: &[u8]) -> (r: Vec<u8>)
    ensures
        r@ == ed25519_sign_of(secret@, msg@),
        r@.len() == 64,
{
    SigningKey::from_bytes(secret).sign(msg).to_bytes().to_vec()
}

/// Relies on `VerifyingKey::from_bytes`: it accepts exactly the compressed
/// points of the curve.
#[verifier::external_body]
fn ed25519_key_ok(public: &[u8; 32]) -> (r: bool)
    ensures
        r == ed25519_point_ok(public@),
{
    VerifyingKey::from_bytes(public).is_ok()
}

/// Relies on `Verifier::verify` of `VerifyingKey`: it accepts a signature that
/// was made with the secret key of this public key over the same message.
#[verifier::external_body]
fn ed25519_verify(public: &[u8; 32], msg: &[u8], sig: &[u8; 64]) -> (r: bool)
    requires
        ed25519_point_ok(public@),
    ensures
        r == ed25519_accepts(public@, msg@, sig@),
        forall|s: Seq<u8>|
            public@ == ed25519_public_of(s) && sig@ == #[trigger] ed25519_sign_of(s, msg@) ==> r,
{
    match VerifyingKey::from_bytes(public) {
        Ok(vk) => vk.verify(msg, &Signature::from_bytes(sig)).is_ok(),
        Err(_) => false,
    }
}

/// The lowercase hexadecimal digit of a value below 16.
pub open spec fn hex_digit(n: int) -> char {
    seq!['0', '1', '2', '3', '4', '5', '6', '7', '8', '9', 'a', 'b', 'c', 'd', 'e', 'f'][n]
}

/// Bytes in lowercase hexadecimal, two digits per byte, high digit first.
pub open spec fn hex_spec(b: Seq<u8>) -> Seq<char>
    decreases b.len(),
{
    if b.len() == 0 {
        seq![]
    } else {
        seq![hex_digit(b[0] as int / 16), hex_digit(b[0] as int % 16)] + hex_spec(b.drop_first())
    }
}

/// Relies on `hex::encode`: two lowercase hexadecimal digits per byte.
#[verifier::external_body]
fn to_hex(b: &[u8]) -> (r: String)
    ensures
        r@ == hex_spec(b@),
{
    hex::encode(b)
}

/// Why a key or a signature was refused.
#[derive(Debug, Clone, Copy, PartialEq, Eq, Structural)]
pub enum IdentityError {
    /// A key is not 32 bytes long.
    BadKeyLength,
    /// The 32 bytes are not a point of the curve.
    InvalidPublicKey,
    /// A signature is not 64 bytes long.
    BadSignatureLength,
    /// The signature does not verify.
    BadSignature,
}

/// The server's signature key pair.
pub struct ServerIdentity {
    secret: [u8; 32],
    public: [u8; 32],
}

impl ServerIdentity {
    #[verifier::type_invariant]
    spec fn inv(&self) -> bool {
        self.public@ == ed25519_public_of(self.secret@)
    }

    /// The secret key.
    pub closed spec fn secret_key(&self) -> Seq<u8> {
        self.secret@
    }

    /// The public key, which is that of the secret key.
    pub open spec fn public_key(&self) -> Seq<u8> {
        ed25519_public_of(self.secret_key())
    }

    /// The key pair of a secret key.
    pub fn from_secret(secret: [u8; 32]) -> (r: ServerIdentity)
        ensures
            r.secret_key() == secret@,
    {
        let public = ed25519_public(&secret);
        ServerIdentity { secret, public }
    }

    /// A fresh random key pair.
    pub fn generate() -> ServerIdentity {
        ServerIdentity::from_secret(ed25519_generate())
    }

    /// The key pair stored as the 32 bytes of its secret key.
    pub fn from_secret_bytes(bytes: &[u8]) -> (r: Result<ServerIdentity, IdentityError>)
        ensures
            bytes@.len() == 32 <==> r is Ok,
            match r {
                Ok(id) => id.secret_key() == bytes@,
                Err(e) => e == IdentityError::BadKeyLength,
            },
    {
        if bytes.len() != 32 {
            return Err(IdentityError::BadKeyLength);
        }
        let mut secret = [0u8; 32];
        let mut i: usize = 0;
        while i < 32
            invariant
                i <= 32,
                bytes@.len() == 32,
                forall|j: int| 0 <= j < i ==> secret@[j] == bytes@[j],
            decreases 32 - i,
        {
            secret[i] = bytes[i];
            i += 1;
        }
        assert(secret@ =~= bytes@);
        Ok(ServerIdentity::from_secret(secret))
    }

    /// The 32 bytes of the secret key, as they are stored.
    pub fn secret_key_bytes(&self) -> (r: [u8; 32])
        ensures
            r@ == self.secret_key(),
    {
        self.secret
    }

    /// Signs a message.
    pub fn sign(&self, message: &[u8]) -> (r: Vec<u8>)
        ensures
            r@ == ed25519_sign_of(self.secret_key(), message@),
            r@.len() == 64,
    {
        ed25519_sign(&self.secret, message)
    }

    /// The 32 bytes of the public key.
    pub fn public_key_bytes(&self) -> (r: [u8; 32])
        ensures
            r@ == self.public_key(),
    {
        proof {
            use_type_invariant(self);
        }
        self.public
    }

    /// The public key in lowercase hexadecimal.
    pub fn public_key_hex(&self) -> (r: String)
        ensures
            r@ == hex_spec(self.public_key()),
    {
        proof {
            use_type_invariant(self);
        }
        to_hex(self.public.as_slice())
    }
}

/// A client's copy of the server's public key.
pub struct ClientVerifier {
    public: [u8; 32],
}

impl ClientVerifier {
    #[verifier::type_invariant]
    spec fn inv(&self) -> bool {
        ed25519_point_ok(self.public@)
    }

    /// The server's public key.
    pub closed spec fn server_key(&self) -> Seq<u8> {
        self.public@
    }

    /// A verifier for a public key, which must be a point of the curve.
    pub fn new(public_key_bytes: &[u8; 32]) -> (r: Result<ClientVerifier, IdentityError>)
        ensures
            ed25519_point_ok(public_key_bytes@) <==> r is Ok,
            match r {
                Ok(v) => v.server_key() == public_key_bytes@,
                Err(e) => e == IdentityError::InvalidPublicKey,
            },
    {
        if ed25519_key_ok(public_key_bytes) {
            Ok(ClientVerifier { public: *public_key_bytes })
        } else {
            Err(IdentityError::InvalidPublicKey)
        }
    }

    /// A verifier for a public key stored as its 32 bytes.
    pub fn from_key_bytes(bytes: &[u8]) -> (r: Result<ClientVerifier, IdentityError>)
        ensures
            bytes@.len() != 32 ==> r == Err::<ClientVerifier, IdentityError>(
                IdentityError::BadKeyLength,
            ),
            bytes@.len() == 32 ==> match r {
                Ok(v) => ed25519_point_ok(bytes@) && v.server_key() == bytes@,
                Err(e) => e == IdentityError::InvalidPublicKey && !ed25519_point_ok(bytes@),
            },
    {
        if bytes.len() != 32 {
            return Err(IdentityError::BadKeyLength);
        }
        let mut key = [0u8; 32];
        let mut i: usize = 0;
        while i < 32
            invariant
                i <= 32,
                bytes@.len() == 32,
                forall|j: int| 0 <= j < i ==> key@[j] == bytes@[j],
            decreases 32 - i,
        {
            key[i] = bytes[i];
            i += 1;
        }
        assert(key@ =~= bytes@);
        ClientVerifier::new(&key)
    }

    /// Checks a signature of `message` by the server. A signature that the
    /// holder of the matching secret key made over the same message passes.
    pub fn verify(&self, message: &[u8], signature_bytes: &[u8]) -> (r: Result<(), IdentityError>)
        ensures
            signature_bytes@.len() != 64 ==> r == Err::<(), IdentityError>(
                IdentityError::BadSignatureLength,
            ),
            signature_bytes@.len() == 64 ==> match r {
                Ok(_) => ed25519_accepts(self.server_key(), message@, signature_bytes@),
                Err(e) => e == IdentityError::BadSignature && !ed25519_accepts(
                    self.server_key(),
                    message@,
                    signature_bytes@,
                ),
            },
            forall|s: Seq<u8>|
                signature_bytes@.len() == 64 && self.server_key() == ed25519_public_of(s)
                    && signature_bytes@ == #[trigger] ed25519_sign_of(
                    s,
                    message@,
                ) ==> r is Ok,
    {
        proof {
            use_type_invariant(self);
        }
        if signature_bytes.len() != 64 {
            return Err(IdentityError::BadSignatureLength);
        }
        let mut sig = [0u8; 64];
        let mut i: usize = 0;
        while i < 64
            invariant
                i <= 64,
                signature_bytes@.len() == 64,
                forall|j: int| 0 <= j < i ==> sig@[j] == signature_bytes@[j],
            decreases 64 - i,
        {
            sig[i] = signature_bytes[i];
            i += 1;
        }
        assert(sig@ =~= signature_bytes@);
        if ed25519_verify(&self.public, message, &sig) {
            Ok(())
        } else {
            Err(IdentityError::BadSignature)
        }
    }
}

} // verus!
