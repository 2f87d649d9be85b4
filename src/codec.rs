//! The handshake frames and their wire encoding.
//!
//! A frame is a variant tag (`u32`, little-endian) followed by the variant's
//! fields in declaration order: a 32-byte key as its raw bytes, a byte string or
//! a text as a `u64` little-endian length followed by the bytes (text as UTF-8),
//! and a flag as one byte, `0` or `1`. Bytes after a complete frame are ignored
//! when decoding.
use vstd::prelude::*;
use vstd::bytes::*;
use vstd::utf8::*;
use crate::buf::{push_all, copy_range};

verus! {

broadcast use vstd::utf8::group_utf8_lib;

/// A handshake frame.
pub enum HandshakeMessage {
    /// Opens a handshake: the client's X25519 and ML-KEM public keys, a label
    /// and the virtual IPv4 address the client claims, in dotted form.
    ClientHello {
        client_pubkey: [u8; 32],
        client_mlkem_pk: Vec<u8>,
        client_id: String,
        virtual_ip: String,
    },
    /// The server's answer: its X25519 public key, the ML-KEM ciphertext and a
    /// signature over the two X25519 public keys.
    ServerHello { server_pubkey: [u8; 32], mlkem_ciphertext: Vec<u8>, signature: Vec<u8> },
    /// A key confirmation sealed under the session key.
    ClientFinish { encrypted_confirm: Vec<u8> },
    /// The server's verdict on a key confirmation.
    ServerFinish { success: bool },
}

/// The mathematical value of a handshake frame.
pub enum MessageModel {
    ClientHello {
        client_pubkey: Seq<u8>,
        client_mlkem_pk: Seq<u8>,
        client_id: Seq<char>,
        virtual_ip: Seq<char>,
    },
    ServerHello { server_pubkey: Seq<u8>, mlkem_ciphertext: Seq<u8>, signature: Seq<u8> },
    ClientFinish { encrypted_confirm: Seq<u8> },
    ServerFinish { success: bool },
}

impl View for HandshakeMessage {
    type V = MessageModel;

    open spec fn view(&self) -> MessageModel {
        match self {
            HandshakeMessage::ClientHello {
                client_pubkey,
                client_mlkem_pk,
                client_id,
                virtual_ip,
            } => MessageModel::ClientHello {
                client_pubkey: client_pubkey@,
                client_mlkem_pk: client_mlkem_pk@,
                client_id: client_id@,
                virtual_ip: virtual_ip@,
            },
            HandshakeMessage::ServerHello { server_pubkey, mlkem_ciphertext, signature } =>
                MessageModel::ServerHello {
                server_pubkey: server_pubkey@,
                mlkem_ciphertext: mlkem_ciphertext@,
                signature: signature@,
            },
            HandshakeMessage::ClientFinish { encrypted_confirm } => MessageModel::ClientFinish {
                encrypted_confirm: encrypted_confirm@,
            },
            HandshakeMessage::ServerFinish { success } => MessageModel::ServerFinish {
                success: *success,
            },
        }
    }
}

/// A byte string whose length a `u64` prefix can carry.
pub open spec fn fits_field(b: Seq<u8>) -> bool {
    b.len() <= u64::MAX
}

impl MessageModel {
    /// Keys are 32 bytes long and every variable-length field fits its prefix.
    pub open spec fn wf(self) -> bool {
        match self {
            MessageModel::ClientHello { client_pubkey, client_mlkem_pk, client_id, virtual_ip } => {
                &&& client_pubkey.len() == 32
                &&& fits_field(client_mlkem_pk)
                &&& fits_field(encode_utf8(client_id))
                &&& fits_field(encode_utf8(virtual_ip))
            },
            MessageModel::ServerHello { server_pubkey, mlkem_ciphertext, signature } => {
                &&& server_pubkey.len() == 32
                &&& fits_field(mlkem_ciphertext)
                &&& fits_field(signature)
            },
            MessageModel::ClientFinish { encrypted_confirm } => fits_field(encrypted_confirm),
            MessageModel::ServerFinish { .. } => true,
        }
    }
}

/// The encoding of a variant tag.
pub open spec fn tag_bytes(t: u32) -> Seq<u8> {
    spec_u32_to_le_bytes(t)
}

/// The encoding of a byte string: its length, then its bytes.
pub open spec fn field_bytes(b: Seq<u8>) -> Seq<u8> {
    spec_u64_to_le_bytes(b.len() as u64) + b
}

/// The encoding of a text: its UTF-8 bytes as a byte string.
pub open spec fn field_text(s: Seq<char>) -> Seq<u8> {
    field_bytes(encode_utf8(s))
}

/// The encoding of a flag.
pub open spec fn flag_byte(b: bool) -> u8 {
    if b {
        1u8
    } else {
        0u8
    }
}

/// The encoding of a frame.
pub open spec fn encode_spec(m: MessageModel) -> Seq<u8> {
    match m {
        MessageModel::ClientHello { client_pubkey, client_mlkem_pk, client_id, virtual_ip } =>
            tag_bytes(0) + client_pubkey + field_bytes(client_mlkem_pk) + field_text(client_id)
            + field_text(virtual_ip),
        MessageModel::ServerHello { server_pubkey, mlkem_ciphertext, signature } => tag_bytes(1)
            + server_pubkey + field_bytes(mlkem_ciphertext) + field_bytes(signature),
        MessageModel::ClientFinish { encrypted_confirm } => tag_bytes(2) + field_bytes(
            encrypted_confirm,
        ),
        MessageModel::ServerFinish { success } => tag_bytes(3) + seq![flag_byte(success)],
    }
}

/// Splits `n` bytes off the front of `b`, if it has that many.
pub open spec fn take_fixed(b: Seq<u8>, n: int) -> Option<(Seq<u8>, Seq<u8>)> {
    if 0 <= n <= b.len() {
        Some((b.subrange(0, n), b.subrange(n, b.len() as int)))
    } else {
        None
    }
}

/// Splits a length-prefixed byte string off the front of `b`.
pub open spec fn take_field(b: Seq<u8>) -> Option<(Seq<u8>, Seq<u8>)> {
    if b.len() < 8 {
        None
    } else {
        take_fixed(b.subrange(8, b.len() as int), spec_u64_from_le_bytes(b.subrange(0, 8)) as int)
    }
}

/// Splits a length-prefixed UTF-8 text off the front of `b`.
pub open spec fn take_text(b: Seq<u8>) -> Option<(Seq<char>, Seq<u8>)> {
    match take_field(b) {
        Some((v, rest)) => if valid_utf8(v) {
            Some((decode_utf8(v), rest))
        } else {
            None
        },
        None => None,
    }
}

/// Decodes the fields of a `ClientHello` from `b`.
pub open spec fn decode_client_hello(b: Seq<u8>) -> Option<MessageModel> {
    match take_fixed(b, 32) {
        Some((pk, r1)) => match take_field(r1) {
            Some((kem, r2)) => match take_text(r2) {
                Some((id, r3)) => match take_text(r3) {
                    Some((vip, _r4)) => Some(
                        MessageModel::ClientHello {
                            client_pubkey: pk,
                            client_mlkem_pk: kem,
                            client_id: id,
                            virtual_ip: vip,
                        },
                    ),
                    None => None,
                },
                None => None,
            },
            None => None,
        },
        None => None,
    }
}

/// Decodes the fields of a `ServerHello` from `b`.
pub open spec fn decode_server_hello(b: Seq<u8>) -> Option<MessageModel> {
    match take_fixed(b, 32) {
        Some((pk, r1)) => match take_field(r1) {
            Some((ct, r2)) => match take_field(r2) {
                Some((sig, _r3)) => Some(
                    MessageModel::ServerHello {
                        server_pubkey: pk,
                        mlkem_ciphertext: ct,
                        signature: sig,
                    },
                ),
                None => None,
            },
            None => None,
        },
        None => None,
    }
}

/// Decodes a frame from the front of `b`; bytes after it are ignored.
pub open spec fn decode_spec(b: Seq<u8>) -> Option<MessageModel> {
    if b.len() < 4 {
        None
    } else {
        let tag = spec_u32_from_le_bytes(b.subrange(0, 4));
        let body = b.subrange(4, b.len() as int);
        if tag == 0 {
            decode_client_hello(body)
        } else if tag == 1 {
            decode_server_hello(body)
        } else if tag == 2 {
            match take_field(body) {
                Some((c, _r)) => Some(MessageModel::ClientFinish { encrypted_confirm: c }),
                None => None,
            }
        } else if tag == 3 {
            if body.len() >= 1 && body[0] == 0 {
                Some(MessageModel::ServerFinish { success: false })
            } else if body.len() >= 1 && body[0] == 1 {
                Some(MessageModel::ServerFinish { success: true })
            } else {
                None
            }
        } else {
            None
        }
    }
}

/// Why a byte string is not a handshake frame.
#[derive(Debug, Clone, Copy, PartialEq, Eq, Structural)]
pub enum CodecError {
    /// The input ends inside a field.
    Truncated,
    /// The variant tag is not one of the four frames.
    UnknownVariant,
    /// A text field is not valid UTF-8.
    InvalidText,
    /// A flag byte is neither `0` nor `1`.
    InvalidFlag,
}

proof fn lemma_take_field(b: Seq<u8>, rest: Seq<u8>)
    requires
        fits_field(b),
    ensures
        take_field(field_bytes(b) + rest) == Some((b, rest)),
{
    lemma_auto_spec_u64_to_from_le_bytes();
    let s = field_bytes(b) + rest;
    assert(s.subrange(0, 8) =~= spec_u64_to_le_bytes(b.len() as u64));
    assert(s.subrange(8, s.len() as int) =~= b + rest);
    assert((b + rest).subrange(0, b.len() as int) =~= b);
    assert((b + rest).subrange(b.len() as int, (b + rest).len() as int) =~= rest);
}

proof fn lemma_take_text(t: Seq<char>, rest: Seq<u8>)
    requires
        fits_field(encode_utf8(t)),
    ensures
        take_text(field_text(t) + rest) == Some((t, rest)),
{
    lemma_take_field(encode_utf8(t), rest);
}

proof fn lemma_take_fixed(b: Seq<u8>, rest: Seq<u8>)
    ensures
        take_fixed(b + rest, b.len() as int) == Some((b, rest)),
{
    assert((b + rest).subrange(0, b.len() as int) =~= b);
    assert((b + rest).subrange(b.len() as int, (b + rest).len() as int) =~= rest);
}

/// Decoding inverts encoding: a frame is read back from its encoding, whatever
/// bytes follow it.
pub proof fn lemma_decode_encode(m: MessageModel, trailing: Seq<u8>)
    requires
        m.wf(),
    ensures
        decode_spec(encode_spec(m) + trailing) == Some(m),
{
    lemma_auto_spec_u32_to_from_le_bytes();
    let s = encode_spec(m) + trailing;
    match m {
        MessageModel::ClientHello { client_pubkey, client_mlkem_pk, client_id, virtual_ip } => {
            let r4 = trailing;
            let r3 = field_text(virtual_ip) + r4;
            let r2 = field_text(client_id) + r3;
            let r1 = field_bytes(client_mlkem_pk) + r2;
            let body = client_pubkey + r1;
            assert(s =~= tag_bytes(0) + body);
            assert(s.subrange(0, 4) =~= tag_bytes(0));
            assert(s.subrange(4, s.len() as int) =~= body);
            lemma_take_fixed(client_pubkey, r1);
            lemma_take_field(client_mlkem_pk, r2);
            lemma_take_text(client_id, r3);
            lemma_take_text(virtual_ip, r4);
        },
        MessageModel::ServerHello { server_pubkey, mlkem_ciphertext, signature } => {
            let r3 = trailing;
            let r2 = field_bytes(signature) + r3;
            let r1 = field_bytes(mlkem_ciphertext) + r2;
            let body = server_pubkey + r1;
            assert(s =~= tag_bytes(1) + body);
            assert(s.subrange(0, 4) =~= tag_bytes(1));
            assert(s.subrange(4, s.len() as int) =~= body);
            lemma_take_fixed(server_pubkey, r1);
            lemma_take_field(mlkem_ciphertext, r2);
            lemma_take_field(signature, r3);
        },
        MessageModel::ClientFinish { encrypted_confirm } => {
            let body = field_bytes(encrypted_confirm) + trailing;
            assert(s =~= tag_bytes(2) + body);
            assert(s.subrange(0, 4) =~= tag_bytes(2));
            assert(s.subrange(4, s.len() as int) =~= body);
            lemma_take_field(encrypted_confirm, trailing);
        },
        MessageModel::ServerFinish { success } => {
            let body = seq![flag_byte(success)] + trailing;
            assert(s =~= tag_bytes(3) + body);
            assert(s.subrange(0, 4) =~= tag_bytes(3));
            assert(s.subrange(4, s.len() as int) =~= body);
        },
    }
}

/// Relies on `String::from_utf8`: it accepts exactly the valid UTF-8 byte
/// strings, and returns the text that they encode.
#[verifier::external_body]
fn string_from_utf8(b: Vec<u8>) -> (r: Option<String>)
    ensures
        r is Some <==> valid_utf8(b@),
        r matches Some(s) ==> s@ == decode_utf8(b@),
{
    String::from_utf8(b).ok()
}

fn push_field(out: &mut Vec<u8>, b: &[u8])
    ensures
        final(out)@ == old(out)@ + field_bytes(b@),
{
    let len = u64_to_le_bytes(b.len() as u64);
    push_all(out, len.as_slice());
    push_all(out, b);
    assert(final(out)@ =~= old(out)@ + field_bytes(b@));
}

fn push_text(out: &mut Vec<u8>, s: &String)
    ensures
        final(out)@ == old(out)@ + field_text(s@),
{
    push_field(out, s.as_str().as_bytes());
}

/// Encodes a handshake frame.
pub fn serialize_message(msg: &HandshakeMessage) -> (r: Result<Vec<u8>, CodecError>)
    ensures
        r matches Ok(b) && b@ == encode_spec(msg@),
{
    let mut out: Vec<u8> = Vec::new();
    match msg {
        HandshakeMessage::ClientHello { client_pubkey, client_mlkem_pk, client_id, virtual_ip } => {
            push_all(&mut out, u32_to_le_bytes(0).as_slice());
            push_all(&mut out, client_pubkey.as_slice());
            push_field(&mut out, client_mlkem_pk.as_slice());
            push_text(&mut out, client_id);
            push_text(&mut out, virtual_ip);
        },
        HandshakeMessage::ServerHello { server_pubkey, mlkem_ciphertext, signature } => {
            push_all(&mut out, u32_to_le_bytes(1).as_slice());
            push_all(&mut out, server_pubkey.as_slice());
            push_field(&mut out, mlkem_ciphertext.as_slice());
            push_field(&mut out, signature.as_slice());
        },
        HandshakeMessage::ClientFinish { encrypted_confirm } => {
            push_all(&mut out, u32_to_le_bytes(2).as_slice());
            push_field(&mut out, encrypted_confirm.as_slice());
        },
        HandshakeMessage::ServerFinish { success } => {
            push_all(&mut out, u32_to_le_bytes(3).as_slice());
            if *success {
                out.push(1u8);
            } else {
                out.push(0u8);
            }
        },
    }
    assert(out@ =~= encode_spec(msg@));
    Ok(out)
}

/// Reads 32 bytes at `pos` into an array.
fn read_key(data: &[u8], pos: usize) -> (r: Option<([u8; 32], usize)>)
    requires
        pos <= data@.len(),
    ensures
        match take_fixed(data@.subrange(pos as int, data@.len() as int), 32) {
            Some((k, rest)) => r matches Some((a, p)) && a@ == k && p <= data@.len()
                && data@.subrange(p as int, data@.len() as int) == rest,
            None => r is None,
        },
{
    if data.len() - pos < 32 {
        return None;
    }
    let end: usize = pos + 32;
    let mut a = [0u8; 32];
    let mut i: usize = 0;
    while i < 32
        invariant
            i <= 32,
            end == pos + 32,
            end <= data@.len(),
            forall|j: int| 0 <= j < i ==> a@[j] == data@[pos + j],
        decreases 32 - i,
    {
        a[i] = data[pos + i];
        i += 1;
    }
    let ghost s = data@.subrange(pos as int, data@.len() as int);
    assert(a@ =~= s.subrange(0, 32));
    assert(data@.subrange((pos + 32) as int, data@.len() as int) =~= s.subrange(32, s.len() as int));
    Some((a, end))
}

/// Reads a length-prefixed byte string at `pos`.
fn read_field(data: &[u8], pos: usize) -> (r: Option<(Vec<u8>, usize)>)
    requires
        pos <= data@.len(),
    ensures
        match take_field(data@.subrange(pos as int, data@.len() as int)) {
            Some((v, rest)) => r matches Some((f, p)) && f@ == v && p <= data@.len()
                && data@.subrange(p as int, data@.len() as int) == rest,
            None => r is None,
        },
{
    let ghost s = data@.subrange(pos as int, data@.len() as int);
    if data.len() - pos < 8 {
        return None;
    }
    let n = u64_from_le_bytes(vstd::slice::slice_subrange(data, pos, pos + 8));
    assert(s.subrange(0, 8) =~= data@.subrange(pos as int, pos + 8));
    let start = pos + 8;
    let ghost t = s.subrange(8, s.len() as int);
    assert(t =~= data@.subrange(start as int, data@.len() as int));
    if n > (data.len() - start) as u64 {
        return None;
    }
    let end = start + n as usize;
    let f = copy_range(data, start, end);
    assert(f@ =~= t.subrange(0, n as int));
    assert(data@.subrange(end as int, data@.len() as int) =~= t.subrange(n as int, t.len() as int));
    Some((f, end))
}

/// Reads a length-prefixed UTF-8 text at `pos`.
fn read_text(data: &[u8], pos: usize) -> (r: Result<(String, usize), CodecError>)
    requires
        pos <= data@.len(),
    ensures
        match take_text(data@.subrange(pos as int, data@.len() as int)) {
            Some((v, rest)) => r matches Ok((f, p)) && f@ == v && p <= data@.len()
                && data@.subrange(p as int, data@.len() as int) == rest,
            None => r is Err,
        },
{
    match read_field(data, pos) {
        None => Err(CodecError::Truncated),
        Some((f, p)) => match string_from_utf8(f) {
            Some(s) => Ok((s, p)),
            None => Err(CodecError::InvalidText),
        },
    }
}

/// Decodes a handshake frame from the front of `data`.
pub fn deserialize_message(data: &[u8]) -> (r: Result<HandshakeMessage, CodecError>)
    ensures
        match decode_spec(data@) {
            Some(m) => r matches Ok(msg) && msg@ == m,
            None => r is Err,
        },
{
    if data.len() < 4 {
        return Err(CodecError::Truncated);
    }
    let tag = u32_from_le_bytes(vstd::slice::slice_subrange(data, 0, 4));
    if tag == 0 {
        let (client_pubkey, at1) = match read_key(data, 4) {
            Some(x) => x,
            None => return Err(CodecError::Truncated),
        };
        let (client_mlkem_pk, at2) = match read_field(data, at1) {
            Some(x) => x,
            None => return Err(CodecError::Truncated),
        };
        let (client_id, at3) = read_text(data, at2)?;
        let (virtual_ip, _at4) = read_text(data, at3)?;
        Ok(HandshakeMessage::ClientHello { client_pubkey, client_mlkem_pk, client_id, virtual_ip })
    } else if tag == 1 {
        let (server_pubkey, at1) = match read_key(data, 4) {
            Some(x) => x,
            None => return Err(CodecError::Truncated),
        };
        let (mlkem_ciphertext, at2) = match read_field(data, at1) {
            Some(x) => x,
            None => return Err(CodecError::Truncated),
        };
        let (signature, _at3) = match read_field(data, at2) {
            Some(x) => x,
            None => return Err(CodecError::Truncated),
        };
        Ok(HandshakeMessage::ServerHello { server_pubkey, mlkem_ciphertext, signature })
    } else if tag == 2 {
        let (encrypted_confirm, _at1) = match read_field(data, 4) {
            Some(x) => x,
            None => return Err(CodecError::Truncated),
        };
        Ok(HandshakeMessage::ClientFinish { encrypted_confirm })
    } else if tag == 3 {
        if data.len() < 5 {
            Err(CodecError::Truncated)
        } else if data[4] == 0 {
            Ok(HandshakeMessage::ServerFinish { success: false })
        } else if data[4] == 1 {
            Ok(HandshakeMessage::ServerFinish { success: true })
        } else {
            Err(CodecError::InvalidFlag)
        }
    } else {
        Err(CodecError::UnknownVariant)
    }
}

} // verus!
