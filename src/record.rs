//! The authenticated record layer: one IP datagram per record, sealed with
//! ChaCha20-Poly1305 under the session key.
//!
//! A record is `nonce (12) ‖ ciphertext ‖ tag (16)`, with empty associated
//! data; the nonce is drawn afresh for every record.
use vstd::prelude::*;
use chacha20poly1305::aead::{Aead, AeadCore, KeyInit, OsRng};
use chacha20poly1305::{ChaCha20Poly1305, Key, Nonce};
use crate::buf::{push_all, copy_range};

verus! {

/// Length in bytes of a session key.
pub const KEY_SIZE: usize = 32;

/// Length in bytes of a record's nonce.
pub const NONCE_SIZE: usize = 12;

/// Length in bytes of a record's authentication tag.
pub const TAG_SIZE: usize = 16;

/// Bytes a record adds to the datagram it carries.
pub const RECORD_OVERHEAD: usize = 28;

/// What ChaCha20-Poly1305 seals `pt` into under `key` and `nonce`: the
/// ciphertext followed by the tag.
pub uninterp spec fn aead_seal_of(key: Seq<u8>, nonce: Seq<u8>, pt: Seq<u8>) -> Seq<u8>;

/// What ChaCha20-Poly1305 opens `ct` (ciphertext and tag) to under `key` and
/// `nonce`; `None` where the tag does not authenticate.
pub uninterp spec fn aead_open_of(key: Seq<u8>, nonce: Seq<u8>, ct: Seq<u8>) -> Option<Seq<u8>>;

/// A plaintext short enough for one ChaCha20-Poly1305 message: fewer than
/// `2^32 - 1` blocks of 64 bytes.
pub open spec fn fits_message(pt: Seq<u8>) -> bool {
    pt.len() / 64 < 0xffff_ffff
}

/// The record that carries `pt` under `key` with nonce `nonce`.
pub open spec fn record_spec(key: Seq<u8>, nonce: Seq<u8>, pt: Seq<u8>) -> Seq<u8> {
    nonce + aead_seal_of(key, nonce, pt)
}

/// What a record opens to under `key`: its first 12 bytes are the nonce, the
/// rest the ciphertext and tag.
pub open spec fn open_record_spec(key: Seq<u8>, frame: Seq<u8>) -> Option<Seq<u8>> {
    aead_open_of(key, frame.subrange(0, 12), frame.subrange(12, frame.len() as int))
}

/// Relies on `ChaCha20Poly1305::new` and `Aead::encrypt`: encryption fails
/// only on a plaintext of `2^32 - 1` blocks of 64 bytes or more, and otherwise
/// returns the ciphertext, as long as the plaintext, followed by a 16-byte tag.
#[verifier::external_body]
fn aead_seal(key: &[u8; 32], nonce: &[u8; 12], pt: &[u8]) -> (r: Option<Vec<u8>>)
    ensures
        r is Some <==> fits_message(pt@),
        r matches Some(c) ==> c@ == aead_seal_of(key@, nonce@, pt@) && c@.len() == pt@.len() + 16,
{
    let cipher = ChaCha20Poly1305::new(Key::from_slice(key));
    cipher.encrypt(Nonce::from_slice(nonce), pt).ok()
}

/// Relies on `ChaCha20Poly1305::new` and `Aead::decrypt`: decryption returns
/// the plaintext exactly when the tag authenticates the ciphertext, needs at
/// least the 16 tag bytes, refuses a message of `2^32 - 1` blocks or more, and
/// opens what `Aead::encrypt` sealed under the same
/// key and nonce to the plaintext that was sealed.
#[verifier::external_body]
fn aead_open(key: &[u8; 32], nonce: &[u8; 12], ct: &[u8]) -> (r: Option<Vec<u8>>)
    ensures
        r matches Some(p) ==> aead_open_of(key@, nonce@, ct@) == Some(p@),
        r matches Some(p) ==> p@.len() + 16 == ct@.len() && fits_message(p@),
        r is None ==> aead_open_of(key@, nonce@, ct@) is None,
        ct@.len() < 16 ==> r is None,
        forall|m: Seq<u8>|
            #[trigger] aead_seal_of(key@, nonce@, m) == ct@ && fits_message(m) ==> r is Some && r->0@ == m,
{
    let cipher = ChaCha20Poly1305::new(Key::from_slice(key));
    cipher.decrypt(Nonce::from_slice(nonce), ct).ok()
}

/// Relies on `AeadCore::generate_nonce` with the operating system's generator:
/// a fresh random nonce.
#[verifier::external_body]
fn fresh_nonce() -> (r: [u8; 12]) {
    let n = ChaCha20Poly1305::generate_nonce(&mut OsRng);
    let mut a = [0u8; 12];
    a.copy_from_slice(&n);
    a
}

/// Why a record could not be made or opened.
#[derive(Debug, Clone, Copy, PartialEq, Eq, Structural)]
pub enum RecordError {
    /// The key is not 32 bytes long.
    BadKeyLength,
    /// The plaintext is too long for one ChaCha20-Poly1305 message.
    TooLong,
    /// The record is shorter than its nonce.
    TooShort,
    /// The tag does not authenticate the record under this key.
    AuthFailure,
}

/// A session key, ready to seal and open records.
pub struct Cipher {
    key: [u8; 32],
}

impl Cipher {
    /// The session key.
    pub closed spec fn key(&self) -> Seq<u8> {
        self.key@
    }

    /// Makes a cipher from a key, which must be 32 bytes long.
    pub fn new(key_bytes: &[u8]) -> (r: Result<Cipher, RecordError>)
        ensures
            key_bytes@.len() == 32 <==> r is Ok,
            match r {
                Ok(c) => c.key() == key_bytes@,
                Err(e) => e == RecordError::BadKeyLength,
            },
    {
        if key_bytes.len() != KEY_SIZE {
            return Err(RecordError::BadKeyLength);
        }
        let mut key = [0u8; 32];
        let mut i: usize = 0;
        while i < 32
            invariant
                i <= 32,
                key_bytes@.len() == 32,
                forall|j: int| 0 <= j < i ==> key@[j] == key_bytes@[j],
            decreases 32 - i,
        {
            key[i] = key_bytes[i];
            i += 1;
        }
        assert(key@ =~= key_bytes@);
        Ok(Cipher { key })
    }

    /// Seals `plaintext` into a record with the given nonce.
    pub fn encrypt_with_nonce(&self, nonce: [u8; 12], plaintext: &[u8]) -> (r: Result<
        Vec<u8>,
        RecordError,
    >)
        ensures
            fits_message(plaintext@) <==> r is Ok,
            match r {
                Ok(f) => f@ == record_spec(self.key(), nonce@, plaintext@) && f@.len()
                    == plaintext@.len() + 28,
                Err(e) => e == RecordError::TooLong,
            },
    {
        match aead_seal(&self.key, &nonce, plaintext) {
            Some(c) => {
                let mut f: Vec<u8> = Vec::new();
                push_all(&mut f, nonce.as_slice());
                push_all(&mut f, c.as_slice());
                Ok(f)
            },
            None => Err(RecordError::TooLong),
        }
    }

    /// Seals `plaintext` into a record under a freshly drawn nonce.
    pub fn encrypt(&self, plaintext: &[u8]) -> (r: Result<Vec<u8>, RecordError>)
        ensures
            fits_message(plaintext@) <==> r is Ok,
            match r {
                Ok(f) => f@ == record_spec(self.key(), f@.subrange(0, 12), plaintext@) && f@.len()
                    == plaintext@.len() + 28,
                Err(e) => e == RecordError::TooLong,
            },
    {
        let nonce = fresh_nonce();
        let r = self.encrypt_with_nonce(nonce, plaintext);
        assert(r is Ok ==> r->Ok_0@.subrange(0, 12) =~= nonce@);
        r
    }

    /// Opens a record. A record that `encrypt` made under the same key opens
    /// to the plaintext it carries.
    pub fn decrypt(&self, encrypted_data: &[u8]) -> (r: Result<Vec<u8>, RecordError>)
        ensures
            encrypted_data@.len() < 12 ==> r == Err::<Vec<u8>, RecordError>(RecordError::TooShort),
            encrypted_data@.len() >= 12 ==> match r {
                Ok(p) => open_record_spec(self.key(), encrypted_data@) == Some(p@),
                Err(e) => e == RecordError::AuthFailure && open_record_spec(
                    self.key(),
                    encrypted_data@,
                ) is None,
            },
            encrypted_data@.len() < 28 ==> r is Err,
            r matches Ok(p) ==> p@.len() + 28 == encrypted_data@.len() && fits_message(p@),
            forall|n: Seq<u8>, m: Seq<u8>|
                n.len() == 12 && fits_message(m) && encrypted_data@ == #[trigger] record_spec(
                    self.key(),
                    n,
                    m,
                ) ==> (r matches Ok(p) && p@ == m),
    {
        if encrypted_data.len() < 12 {
            return Err(RecordError::TooShort);
        }
        let mut nonce = [0u8; 12];
        let mut i: usize = 0;
        while i < 12
            invariant
                i <= 12,
                encrypted_data@.len() >= 12,
                forall|j: int| 0 <= j < i ==> nonce@[j] == encrypted_data@[j],
            decreases 12 - i,
        {
            nonce[i] = encrypted_data[i];
            i += 1;
        }
        assert(nonce@ =~= encrypted_data@.subrange(0, 12));
        let ct = copy_range(encrypted_data, 12, encrypted_data.len());
        let r = match aead_open(&self.key, &nonce, ct.as_slice()) {
            Some(p) => Ok(p),
            None => Err(RecordError::AuthFailure),
        };
        assert forall|n: Seq<u8>, m: Seq<u8>|
            n.len() == 12 && fits_message(m) && encrypted_data@ == #[trigger] record_spec(
                self.key(),
                n,
                m,
            ) implies (r matches Ok(p) && p@ == m) by {
            assert(encrypted_data@.subrange(0, 12) =~= n);
            assert(ct@ =~= aead_seal_of(self.key(), n, m));
        }
        r
    }
}

} // verus!
