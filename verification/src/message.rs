//! The wire formats of what a user submits.
//!
//! A secret message is `nonce(32) || user_public_key(32) || ciphertext`.
//! A query input is `contract_key(64) || secret message`.

use vstd::prelude::*;
use vstd::slice::slice_subrange;
use vstd::slice::slice_to_vec;
use crate::error::EnclaveError;

verus! {

/// Length of the nonce that opens a secret message.
pub const NONCE_LENGTH: usize = 32;

/// Length of the fixed part of a secret message: nonce and public key.
pub const ENVELOPE_HEADER_LENGTH: usize = 64;

/// Length of a contract key: a 32-byte authentication tag followed by a
/// 32-byte encryption seed.
pub const CONTRACT_KEY_LENGTH: usize = 64;

/// The per-instance key of a deployed contract.
pub type ContractKey = [u8; 64];

/// The envelope a user sends to a contract: a fresh nonce, the user's
/// ephemeral public key, and the ciphertext.
#[derive(Debug, PartialEq, Eq)]
pub struct SecretMessage {
    pub nonce: [u8; 32],
    pub user_public_key: [u8; 32],
    pub msg: Vec<u8>,
}

/// A secret message as sequences of bytes.
pub struct SecretMessageView {
    pub nonce: Seq<u8>,
    pub user_public_key: Seq<u8>,
    pub msg: Seq<u8>,
}

impl View for SecretMessage {
    type V = SecretMessageView;

    open spec fn view(&self) -> SecretMessageView {
        SecretMessageView {
            nonce: self.nonce@,
            user_public_key: self.user_public_key@,
            msg: self.msg@,
        }
    }
}

/// What a byte string holds when read as a secret message: nothing when it
/// is shorter than the fixed header, else the three parts in wire order.
pub open spec fn parse_secret_message(bytes: Seq<u8>) -> Option<SecretMessageView> {
    if bytes.len() < 64 {
        None
    } else {
        Some(
            SecretMessageView {
                nonce: bytes.subrange(0, 32),
                user_public_key: bytes.subrange(32, 64),
                msg: bytes.subrange(64, bytes.len() as int),
            },
        )
    }
}

/// The wire form of a secret message.
pub open spec fn secret_message_bytes(message: SecretMessageView) -> Seq<u8> {
    message.nonce + message.user_public_key + message.msg
}

/// What a query input holds: nothing when it is shorter than a contract key,
/// else the key and the bytes that follow it.
pub open spec fn parse_query_input(bytes: Seq<u8>) -> Option<(Seq<u8>, Seq<u8>)> {
    if bytes.len() < 64 {
        None
    } else {
        Some((bytes.subrange(0, 64), bytes.subrange(64, bytes.len() as int)))
    }
}

/// Copies the 32 bytes of `src` that start at `start`.
pub(crate) fn copy32(src: &[u8], start: usize) -> (out: [u8; 32])
    requires
        start + 32 <= src@.len(),
    ensures
        out@ == src@.subrange(start as int, start + 32),
{
    assert(start + 32 <= src.len());
    let mut out: [u8; 32] = [0u8; 32];
    let mut i: usize = 0;
    while i < 32
        invariant
            i <= 32,
            start + 32 <= src.len(),
            forall|j: int| 0 <= j < i ==> out@[j] == src@[start + j],
        decreases 32 - i,
    {
        out[i] = src[start + i];
        i = i + 1;
    }
    assert(out@ =~= src@.subrange(start as int, start + 32));
    out
}

/// Copies the 64 bytes that open `src`.
pub(crate) fn copy64(src: &[u8]) -> (out: [u8; 64])
    requires
        64 <= src@.len(),
    ensures
        out@ == src@.subrange(0, 64),
{
    let mut out: [u8; 64] = [0u8; 64];
    let mut i: usize = 0;
    while i < 64
        invariant
            i <= 64,
            64 <= src@.len(),
            forall|j: int| 0 <= j < i ==> out@[j] == src@[j],
        decreases 64 - i,
    {
        out[i] = src[i];
        i = i + 1;
    }
    assert(out@ =~= src@.subrange(0, 64));
    out
}

impl SecretMessage {
    /// Reads a secret message from its wire form.
    ///
    /// Fails with `FailedToDeserialize` exactly when the input is shorter
    /// than the 64-byte header; an empty ciphertext is accepted. The result
    /// depends on the bytes alone, so reading the same input again gives
    /// the same message.
    pub fn from_slice(msg: &[u8]) -> (result: Result<SecretMessage, EnclaveError>)
        ensures
            (match result {
                Ok(message) => parse_secret_message(msg@) == Some(message@),
                Err(e) => e == EnclaveError::FailedToDeserialize && parse_secret_message(msg@)
                    is None,
            }),
    {
        if msg.len() < ENVELOPE_HEADER_LENGTH {
            return Err(EnclaveError::FailedToDeserialize);
        }
        let nonce = copy32(msg, 0);
        let user_public_key = copy32(msg, NONCE_LENGTH);
        let ciphertext = slice_to_vec(slice_subrange(msg, ENVELOPE_HEADER_LENGTH, msg.len()));
        Ok(SecretMessage { nonce, user_public_key, msg: ciphertext })
    }

    /// Writes the message in its wire form.
    pub fn to_vec(&self) -> (bytes: Vec<u8>)
        ensures
            bytes@ == secret_message_bytes(self@),
    {
        let mut bytes: Vec<u8> = Vec::new();
        bytes.extend_from_slice(self.nonce.as_slice());
        bytes.extend_from_slice(self.user_public_key.as_slice());
        bytes.extend_from_slice(self.msg.as_slice());
        assert(bytes@ =~= secret_message_bytes(self@));
        bytes
    }
}

/// Splits a query input into the contract key that opens it and the secret
/// message bytes that follow.
///
/// Fails with `FailedFunctionCall` exactly when the input is shorter than a
/// contract key.
pub fn split_query_input(msg: &[u8]) -> (result: Result<(ContractKey, &[u8]), EnclaveError>)
    ensures
        (match result {
            Ok((key, rest)) => parse_query_input(msg@) == Some((key@, rest@)),
            Err(e) => e == EnclaveError::FailedFunctionCall && parse_query_input(msg@) is None,
        }),
{
    if msg.len() < CONTRACT_KEY_LENGTH {
        return Err(EnclaveError::FailedFunctionCall);
    }
    let key = copy64(msg);
    let rest = slice_subrange(msg, CONTRACT_KEY_LENGTH, msg.len());
    Ok((key, rest))
}

/// Reading back what `to_vec` wrote gives the message again.
pub proof fn lemma_secret_message_round_trip(message: SecretMessageView)
    requires
        message.nonce.len() == 32,
        message.user_public_key.len() == 32,
    ensures
        parse_secret_message(secret_message_bytes(message)) == Some(message),
{
    let bytes = secret_message_bytes(message);
    assert(bytes.subrange(0, 32) =~= message.nonce);
    assert(bytes.subrange(32, 64) =~= message.user_public_key);
    assert(bytes.subrange(64, bytes.len() as int) =~= message.msg);
}

/// A wire form that parses is exactly the wire form of what it parses to.
pub proof fn lemma_secret_message_wire_form(bytes: Seq<u8>)
    requires
        parse_secret_message(bytes) is Some,
    ensures
        secret_message_bytes(parse_secret_message(bytes).unwrap()) == bytes,
{
    let m = parse_secret_message(bytes).unwrap();
    assert(secret_message_bytes(m) =~= bytes);
}

} // verus!
