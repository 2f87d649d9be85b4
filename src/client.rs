//! The client's side of the handshake around the wire: the `ClientHello` it
//! sends, and what it makes of the server's reply.
use vstd::prelude::*;
use crate::codec::{HandshakeMessage, MessageModel, decode_spec, deserialize_message, encode_spec, serialize_message};
use crate::handshake::{ClientHandshake, hybrid_key_spec, kyber_decap_of, server_key_spec, transcript, transcript_spec, x25519_of, x25519_public};
use crate::identity::{ClientVerifier, ed25519_accepts};

verus! {

/// Why the client gave up on a handshake.
#[derive(Debug, Clone, Copy, PartialEq, Eq, Structural)]
pub enum ClientError {
    /// The reply is not a handshake frame.
    Malformed,
    /// The reply is a handshake frame, but not a `ServerHello`.
    UnexpectedMessage,
    /// The signature over `sE ‖ cE` does not verify under the server's key.
    BadSignature,
    /// ML-KEM decapsulation refused the ciphertext.
    Decapsulation,
}

/// The encoded `ClientHello` that opens the handshake.
pub fn client_hello_bytes(hs: &ClientHandshake, client_id: String, virtual_ip: String) -> (r: Vec<
    u8,
>)
    ensures
        r@ == encode_spec(
            MessageModel::ClientHello {
                client_pubkey: hs.public_key(),
                client_mlkem_pk: hs.kem_public_key(),
                client_id: client_id@,
                virtual_ip: virtual_ip@,
            },
        ),
{
    let hello = hs.create_client_hello(client_id, virtual_ip);
    match serialize_message(&hello) {
        Ok(b) => b,
        Err(_) => Vec::new(),
    }
}

/// Finishes the handshake on the server's reply, consuming the client state.
/// The reply must be a `ServerHello` whose signature over `sE ‖ cE` verifies
/// under the server's key and whose ciphertext decapsulates; the session key
/// is then the one that the server holding the secret of `sE` derives.
pub fn finish_handshake(hs: ClientHandshake, verifier: &ClientVerifier, reply: &[u8]) -> (r: Result<
    [u8; 32],
    ClientError,
>)
    ensures
        decode_spec(reply@) is None ==> r == Err::<[u8; 32], ClientError>(ClientError::Malformed),
        decode_spec(reply@) matches Some(m) && !(m is ServerHello) ==> r == Err::<
            [u8; 32],
            ClientError,
        >(ClientError::UnexpectedMessage),
        decode_spec(reply@) matches Some(
            MessageModel::ServerHello { server_pubkey, mlkem_ciphertext, signature },
        ) ==> {
            &&& (r is Ok <==> signature.len() == 64 && ed25519_accepts(
                verifier.server_key(),
                transcript_spec(server_pubkey, hs.public_key()),
                signature,
            ) && mlkem_ciphertext.len() == 1088)
            &&& (r matches Ok(k) ==> k@ == hybrid_key_spec(
                x25519_of(hs.secret_key(), server_pubkey),
                kyber_decap_of(mlkem_ciphertext, hs.kem_secret_key()),
                hs.psk(),
            ))
            &&& (r matches Ok(k) ==> forall|s: Seq<u8>|
                s.len() == 32 && server_pubkey == #[trigger] x25519_public(s) ==> k@
                    == server_key_spec(
                    s,
                    hs.public_key(),
                    kyber_decap_of(mlkem_ciphertext, hs.kem_secret_key()),
                    hs.psk(),
                ))
        },
{
    let msg = match deserialize_message(reply) {
        Ok(m) => m,
        Err(_) => return Err(ClientError::Malformed),
    };
    let (server_pubkey, mlkem_ciphertext, signature) = match msg {
        HandshakeMessage::ServerHello { server_pubkey, mlkem_ciphertext, signature } => (
            server_pubkey,
            mlkem_ciphertext,
            signature,
        ),
        _ => return Err(ClientError::UnexpectedMessage),
    };
    let hello = hs.create_client_hello(String::new(), String::new());
    let client_pubkey = match hello {
        HandshakeMessage::ClientHello { client_pubkey, .. } => client_pubkey,
        _ => return Err(ClientError::Malformed),
    };
    let signed = transcript(&server_pubkey, &client_pubkey);
    if verifier.verify(signed.as_slice(), signature.as_slice()).is_err() {
        return Err(ClientError::BadSignature);
    }
    match hs.process_server_hello(server_pubkey, mlkem_ciphertext.as_slice()) {
        Ok(k) => Ok(k),
        Err(_) => Err(ClientError::Decapsulation),
    }
}

} // verus!
