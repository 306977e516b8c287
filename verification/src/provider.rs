//! The boundary to the curve arithmetic provider: what is handed to it for
//! each operation, and what it hands back.
//!
//! The provider does the arithmetic and the encodings. This crate decides
//! what it is asked and what its answers mean; whoever links the provider
//! carries a request to it and brings the reply back.

use vstd::prelude::*;
use crate::constants::{
    MAX_COMPACT_SIGNATURE_SIZE,
    MAX_SIGNATURE_SIZE,
    UNCOMPRESSED_PUBLIC_KEY_SIZE,
};
use crate::key::{PublicKey, SecretKey, public_key_size, spec_public_key_size};
use crate::message::Message;
use crate::signature::RecoveryId;

verus! {

/// The provider's answer for success, where it answers yes or no.
pub const PROVIDER_OK: i32 = 1;

/// How the provider is to pick the nonce of a signature.
#[derive(Copy, Clone, Debug, PartialEq, Eq, Structural)]
pub enum NonceFunction {
    /// Derived from message and key as RFC 6979 describes.
    Rfc6979,
    /// The provider's own default.
    Default,
}

/// The capabilities that the provider is started with.
#[derive(Copy, Clone, Debug, PartialEq, Eq, Structural)]
pub struct StartFlags {
    pub verify: bool,
    pub sign: bool,
}

/// A request to derive the public key of a secret key.
pub struct PublicKeyRequest<'a> {
    pub seckey: &'a SecretKey,
    pub compressed: bool,
}

/// A request for a signature in the variable-length encoding.
pub struct SignRequest<'a> {
    pub msg: &'a Message,
    pub seckey: &'a SecretKey,
    pub nonce: NonceFunction,
    /// The room in the buffer that the provider writes to.
    pub capacity: i32,
}

/// A request for a signature in the compact encoding.
pub struct SignCompactRequest<'a> {
    pub msg: &'a Message,
    pub seckey: &'a SecretKey,
    pub nonce: NonceFunction,
}

/// A request to verify a signature.
pub struct VerifyRequest<'a> {
    pub msg: &'a Message,
    pub sig: &'a [u8],
    pub sig_len: i32,
    pub pubkey: &'a PublicKey,
    pub pubkey_len: i32,
}

/// A request to recover the public key behind a compact signature.
pub struct RecoverRequest<'a> {
    pub msg: &'a Message,
    pub sig: [u8; MAX_COMPACT_SIGNATURE_SIZE],
    pub compressed: bool,
    pub recid: RecoveryId,
}

/// The provider's reply to a request for a signature in the
/// variable-length encoding: its answer, the buffer, and the length that it
/// reports to have written.
#[derive(Copy, Clone, Debug)]
pub struct SignReply {
    pub code: i32,
    pub sig: [u8; MAX_SIGNATURE_SIZE],
    pub len: i32,
}

/// The provider's reply to a request for a compact signature.
#[derive(Copy, Clone, Debug)]
pub struct SignCompactReply {
    pub code: i32,
    pub sig: [u8; MAX_COMPACT_SIGNATURE_SIZE],
    pub recid: i32,
}

/// The provider's reply where it hands back a public key: its answer, the
/// buffer, and the length that it reports to have written.
#[derive(Copy, Clone, Debug)]
pub struct PublicKeyReply {
    pub code: i32,
    pub pubkey: [u8; UNCOMPRESSED_PUBLIC_KEY_SIZE],
    pub len: i32,
}

impl SignReply {
    /// On success the reported length fits the buffer.
    pub open spec fn spec_in_contract(&self) -> bool {
        self.code == PROVIDER_OK ==> 0 <= self.len <= MAX_SIGNATURE_SIZE
    }

    /// Whether the provider kept to its contract: on success the reported
    /// length fits the buffer.
    pub fn in_contract(&self) -> (kept: bool)
        ensures
            kept == self.spec_in_contract(),
    {
        self.code != PROVIDER_OK || (0 <= self.len && self.len as usize <= MAX_SIGNATURE_SIZE)
    }
}

impl SignCompactReply {
    /// On success the recovery id is one of 0, 1, 2, 3.
    pub open spec fn spec_in_contract(&self) -> bool {
        self.code == PROVIDER_OK ==> 0 <= self.recid <= 3
    }

    /// Whether the provider kept to its contract: on success the recovery
    /// id is one of 0, 1, 2, 3.
    pub fn in_contract(&self) -> (kept: bool)
        ensures
            kept == self.spec_in_contract(),
    {
        self.code != PROVIDER_OK || (0 <= self.recid && self.recid <= 3)
    }
}

impl PublicKeyReply {
    /// On success the reported length is that of the form asked for.
    pub open spec fn spec_in_contract(&self, compressed: bool) -> bool {
        self.code == PROVIDER_OK ==> self.len == spec_public_key_size(compressed)
    }

    /// Whether the provider kept to its contract: on success the reported
    /// length is that of the form asked for.
    pub fn in_contract(&self, compressed: bool) -> (kept: bool)
        ensures
            kept == self.spec_in_contract(compressed),
    {
        self.code != PROVIDER_OK || (0 <= self.len && self.len as usize == public_key_size(
            compressed,
        ))
    }
}

/// Whether `code` is one of the four answers that the provider gives to a
/// verification: 1, 0, -1, -2.
pub open spec fn spec_is_verify_code(code: i32) -> bool {
    -2 <= code <= 1
}

/// Whether `code` is one of the four answers that the provider gives to a
/// verification.
pub fn is_verify_code(code: i32) -> (known: bool)
    ensures
        known == spec_is_verify_code(code),
{
    -2 <= code && code <= 1
}

} // verus!
