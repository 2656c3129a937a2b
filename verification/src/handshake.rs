//! The authenticated handshake over the punched path.
//!
//! The initiator computes a 32-byte digest of the secret joined with a
//! fixed tag, sends it length-prefixed in a `Handshake` packet, and accepts
//! the response exactly when its first payload byte is zero. On success the
//! digest is retained as the session's shared secret. The session cipher is
//! the identity until a real one is supplied.

use crate::codec::{spec_serialize, MessageType, Packet};
use crate::errors::ProtocolError;
use crate::wire::{push_u16_be, u16_bytes};
use crate::MAX_PAYLOAD;
use sha2::Digest;
use vstd::prelude::*;
use vstd::string::StringSliceAdditionalSpecFns;

verus! {

/// The 32-byte SHA-256 digest of a byte string. Left uninterpreted: the
/// digest's value is fixed by the hash function alone.
pub uninterp spec fn sha256_of(data: Seq<u8>) -> Seq<u8>;

/// Relies on sha2's `Sha256`: the digest is 32 bytes and depends on the
/// input bytes alone.
#[verifier::external_body]
fn sha256_digest(data: &[u8]) -> (r: Vec<u8>)
    ensures
        r@ == sha256_of(data@),
        r@.len() == 32,
{
    let mut hasher = sha2::Sha256::new();
    hasher.update(data);
    hasher.finalize().to_vec()
}

/// The fixed tag appended to the secret before hashing: the bytes of
/// "RustDesk".
pub open spec fn auth_tag() -> Seq<u8> {
    seq![0x52u8, 0x75u8, 0x73u8, 0x74u8, 0x44u8, 0x65u8, 0x73u8, 0x6Bu8]
}

/// The authentication digest of a secret: SHA-256 of the secret's bytes
/// followed by the fixed tag.
pub open spec fn auth_digest(password: Seq<u8>) -> Seq<u8> {
    sha256_of(password + auth_tag())
}

/// The handshake payload: the digest's length as a big-endian 16-bit value,
/// then the digest.
pub open spec fn handshake_payload(digest: Seq<u8>) -> Seq<u8> {
    u16_bytes(digest.len() as u16) + digest
}

/// Computes the authentication digest of a secret.
pub fn compute_auth_digest(password: &str) -> (r: Vec<u8>)
    ensures
        r@ == auth_digest(password.spec_bytes()),
        r@.len() == 32,
{
    let bytes = password.as_bytes();
    let mut input: Vec<u8> = Vec::new();
    let n = bytes.len();
    let mut k: usize = 0;
    while k < n
        invariant
            k <= n,
            n == bytes@.len(),
            input@ =~= bytes@.subrange(0, k as int),
        decreases n - k,
    {
        input.push(bytes[k]);
        assert(input@ =~= bytes@.subrange(0, k + 1));
        k = k + 1;
    }
    input.push(0x52);
    input.push(0x75);
    input.push(0x73);
    input.push(0x74);
    input.push(0x44);
    input.push(0x65);
    input.push(0x73);
    input.push(0x6B);
    assert(input@ =~= password.spec_bytes() + auth_tag());
    sha256_digest(input.as_slice())
}

/// The authenticated-handshake state: the shared secret once established.
pub struct SecureHandshake {
    shared_secret: Option<Vec<u8>>,
}

impl SecureHandshake {
    /// The established shared secret, if the handshake has completed.
    pub closed spec fn secret(self) -> Option<Vec<u8>> {
        self.shared_secret
    }

    /// Creates a handshake with no secret established.
    pub fn new() -> (r: SecureHandshake)
        ensures
            r.secret() is None,
    {
        SecureHandshake { shared_secret: None }
    }

    /// The serialized `Handshake` packet for a secret: the authentication
    /// digest, length-prefixed.
    pub fn handshake_request(&self, password: &str) -> (r: Vec<u8>)
        ensures
            r@ == spec_serialize(
                MessageType::Handshake,
                handshake_payload(auth_digest(password.spec_bytes())),
            ),
            auth_digest(password.spec_bytes()).len() == 32,
            r@.len() == 40,
    {
        let digest = compute_auth_digest(password);
        let mut payload: Vec<u8> = Vec::new();
        push_u16_be(&mut payload, digest.len() as u16);
        let n = digest.len();
        let mut k: usize = 0;
        while k < n
            invariant
                k <= n,
                n == digest@.len(),
                n == 32,
                payload@ =~= u16_bytes(32u16) + digest@.subrange(0, k as int),
            decreases n - k,
        {
            payload.push(digest[k]);
            assert(payload@ =~= u16_bytes(32u16) + digest@.subrange(0, k + 1));
            k = k + 1;
        }
        assert(payload@ =~= handshake_payload(digest@));
        let packet = Packet::new(MessageType::Handshake, payload);
        match packet.serialize() {
            Ok(bytes) => bytes,
            Err(_) => {
                proof {
                    assert(false);
                }
                Vec::new()
            },
        }
    }

    /// Accepts or rejects a handshake response. Success exactly when the
    /// response is a `HandshakeResponse` whose first payload byte is zero;
    /// a zero-length payload or a non-zero first byte is an authentication
    /// failure, any other message type an invalid response.
    pub fn check_response(response: &Packet) -> (r: Result<(), ProtocolError>)
        ensures
            response.msg_type == MessageType::HandshakeResponse && response.payload@.len() > 0
                && response.payload@[0] == 0 ==> r == Ok::<(), ProtocolError>(()),
            response.msg_type == MessageType::HandshakeResponse && !(response.payload@.len() > 0
                && response.payload@[0] == 0) ==> (r matches Err(e) && e matches
                ProtocolError::HandshakeFailed(m) && m@ == "Authentication failed"@),
            response.msg_type != MessageType::HandshakeResponse ==> (r matches Err(e) && e matches
                ProtocolError::HandshakeFailed(m) && m@ == "Invalid handshake response"@),
    {
        if response.msg_type == MessageType::HandshakeResponse {
            if response.payload.len() > 0 && response.payload[0] == 0 {
                Ok(())
            } else {
                Err(ProtocolError::HandshakeFailed("Authentication failed".to_owned()))
            }
        } else {
            Err(ProtocolError::HandshakeFailed("Invalid handshake response".to_owned()))
        }
    }

    /// Judges the peer's response and, on success, retains the secret's
    /// digest as the session's shared secret. On failure nothing changes.
    pub fn complete_handshake(&mut self, password: &str, response: &Packet) -> (r: Result<
        (),
        ProtocolError,
    >)
        ensures
            response.msg_type == MessageType::HandshakeResponse && response.payload@.len() > 0
                && response.payload@[0] == 0 ==> r == Ok::<(), ProtocolError>(())
                && (final(self).secret() matches Some(d) && d@ == auth_digest(
                password.spec_bytes(),
            )),
            !(response.msg_type == MessageType::HandshakeResponse && response.payload@.len() > 0
                && response.payload@[0] == 0) ==> (r matches Err(e) && *final(self) == *old(self)
                && (e matches ProtocolError::HandshakeFailed(_))),
    {
        match Self::check_response(response) {
            Ok(_) => {
                let digest = compute_auth_digest(password);
                self.shared_secret = Some(digest);
                Ok(())
            },
            Err(e) => Err(e),
        }
    }

    /// Encrypts session bytes. The cipher is the identity: the output
    /// equals the input.
    pub fn encrypt(&self, data: &[u8]) -> (r: Result<Vec<u8>, ProtocolError>)
        ensures
            r matches Ok(v) && v@ == data@,
    {
        let mut out: Vec<u8> = Vec::new();
        let n = data.len();
        let mut k: usize = 0;
        while k < n
            invariant
                k <= n,
                n == data@.len(),
                out@ =~= data@.subrange(0, k as int),
            decreases n - k,
        {
            out.push(data[k]);
            assert(out@ =~= data@.subrange(0, k + 1));
            k = k + 1;
        }
        assert(out@ =~= data@);
        Ok(out)
    }

    /// Decrypts session bytes. The cipher is the identity: the output
    /// equals the input.
    pub fn decrypt(&self, data: &[u8]) -> (r: Result<Vec<u8>, ProtocolError>)
        ensures
            r matches Ok(v) && v@ == data@,
    {
        self.encrypt(data)
    }
}

/// The session cipher round-trips: decrypting what was encrypted yields
/// the original bytes. With the identity cipher both sides equal the input.
pub proof fn lemma_cipher_round_trip(data: Seq<u8>, enc: Seq<u8>, dec: Seq<u8>)
    requires
        enc == data,
        dec == enc,
    ensures
        dec == data,
{
}

} // verus!
