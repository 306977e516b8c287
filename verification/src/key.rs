//! Secret and public keys.

use vstd::prelude::*;
use crate::bytes::{prefix_array, same_bytes};
use crate::constants::{
    COMPRESSED_PUBLIC_KEY_SIZE,
    SECRET_KEY_SIZE,
    UNCOMPRESSED_PUBLIC_KEY_SIZE,
};
use crate::error::Error;
use crate::provider::{PROVIDER_OK, PublicKeyReply, PublicKeyRequest};

verus! {

/// A secret key: `SECRET_KEY_SIZE` bytes that the provider has accepted as
/// a scalar. It is neither `Copy` nor printable, so that it leaves its
/// holder only where the code says so.
pub struct SecretKey {
    data: [u8; SECRET_KEY_SIZE],
}

impl View for SecretKey {
    type V = Seq<u8>;

    closed spec fn view(&self) -> Seq<u8> {
        self.data@
    }
}

impl SecretKey {
    /// The bytes to put before the provider's scalar check, or the refusal
    /// of a slice that has not exactly `SECRET_KEY_SIZE` bytes.
    pub fn candidate(data: &[u8]) -> (res: Result<[u8; SECRET_KEY_SIZE], Error>)
        ensures
            data@.len() == SECRET_KEY_SIZE ==> res is Ok && res->Ok_0@ == data@,
            data@.len() != SECRET_KEY_SIZE ==> res == Err::<[u8; SECRET_KEY_SIZE], Error>(
                Error::InvalidSecretKey,
            ),
    {
        if data.len() == SECRET_KEY_SIZE {
            let out: [u8; SECRET_KEY_SIZE] = prefix_array(data);
            assert(data@.subrange(0, SECRET_KEY_SIZE as int) =~= data@);
            Ok(out)
        } else {
            Err(Error::InvalidSecretKey)
        }
    }

    /// Converts a `SECRET_KEY_SIZE`-byte slice to a secret key, given the
    /// provider's verdict on it as a scalar: zero means that it refused the
    /// bytes (zero, or not below the group order). A slice of another
    /// length is refused whatever the verdict.
    pub fn from_slice(data: &[u8], verdict: i32) -> (res: Result<SecretKey, Error>)
        ensures
            data@.len() == SECRET_KEY_SIZE && verdict != 0 ==> res is Ok && res->Ok_0@ == data@,
            data@.len() != SECRET_KEY_SIZE || verdict == 0 ==> res is Err && res->Err_0
                == Error::InvalidSecretKey,
    {
        if data.len() == SECRET_KEY_SIZE && verdict != 0 {
            let out: [u8; SECRET_KEY_SIZE] = prefix_array(data);
            assert(data@.subrange(0, SECRET_KEY_SIZE as int) =~= data@);
            Ok(SecretKey { data: out })
        } else {
            Err(Error::InvalidSecretKey)
        }
    }

    /// The length of a secret key.
    pub fn len(&self) -> (n: usize)
        ensures
            n == SECRET_KEY_SIZE,
            n == self@.len(),
    {
        SECRET_KEY_SIZE
    }

    /// The key's bytes, for handing to the provider.
    pub fn as_bytes(&self) -> (bytes: &[u8; SECRET_KEY_SIZE])
        ensures
            bytes@ == self@,
    {
        &self.data
    }

    /// A second holder of the same key.
    pub fn duplicate(&self) -> (copy: SecretKey)
        ensures
            copy@ == self@,
    {
        SecretKey { data: self.data }
    }
}

impl PartialEq for SecretKey {
    fn eq(&self, other: &SecretKey) -> (same: bool) {
        same_bytes(&self.data, &other.data)
    }
}

impl Eq for SecretKey {

}

impl vstd::std_specs::cmp::PartialEqSpecImpl for SecretKey {
    open spec fn obeys_eq_spec() -> bool {
        true
    }

    open spec fn eq_spec(&self, other: &SecretKey) -> bool {
        self@ == other@
    }
}

/// The two encodings of a curve point.
#[derive(Copy, Clone, Debug)]
enum PublicKeyData {
    Compressed([u8; COMPRESSED_PUBLIC_KEY_SIZE]),
    Uncompressed([u8; UNCOMPRESSED_PUBLIC_KEY_SIZE]),
}

/// A public key: the encoding of a curve point, compressed
/// (`COMPRESSED_PUBLIC_KEY_SIZE` bytes) or uncompressed
/// (`UNCOMPRESSED_PUBLIC_KEY_SIZE` bytes). Whether the bytes encode a point
/// of the curve is for the provider to say when the key is used.
#[derive(Copy, Clone, Debug)]
pub struct PublicKey {
    data: PublicKeyData,
}

/// The length of a public key in the given form.
pub open spec fn spec_public_key_size(compressed: bool) -> nat {
    if compressed {
        COMPRESSED_PUBLIC_KEY_SIZE as nat
    } else {
        UNCOMPRESSED_PUBLIC_KEY_SIZE as nat
    }
}

/// The length of a public key in the given form.
pub fn public_key_size(compressed: bool) -> (n: usize)
    ensures
        n == spec_public_key_size(compressed),
{
    if compressed {
        COMPRESSED_PUBLIC_KEY_SIZE
    } else {
        UNCOMPRESSED_PUBLIC_KEY_SIZE
    }
}

/// Whether `key` is the public key of the given form that a reply holds:
/// the first bytes of the buffer, as many as the form has.
pub open spec fn spec_is_key_of(key: PublicKey, compressed: bool, reply: PublicKeyReply) -> bool {
    &&& key.spec_is_compressed() == compressed
    &&& key@ == reply.pubkey@.subrange(0, spec_public_key_size(compressed) as int)
    &&& key@.len() == spec_public_key_size(compressed)
}

/// The public key made of a reply depends on nothing but the reply and the
/// form asked for: whoever derives twice, and gets the same reply twice,
/// holds the same bytes twice.
pub proof fn lemma_key_of_reply_is_unique(
    first: PublicKey,
    second: PublicKey,
    compressed: bool,
    reply: PublicKeyReply,
)
    requires
        spec_is_key_of(first, compressed, reply),
        spec_is_key_of(second, compressed, reply),
    ensures
        first@ == second@,
        first.spec_is_compressed() == second.spec_is_compressed(),
{
}

impl View for PublicKey {
    type V = Seq<u8>;

    closed spec fn view(&self) -> Seq<u8> {
        match self.data {
            PublicKeyData::Compressed(bytes) => bytes@,
            PublicKeyData::Uncompressed(bytes) => bytes@,
        }
    }
}

impl PublicKey {
    /// Whether the key is in compressed form.
    pub closed spec fn spec_is_compressed(&self) -> bool {
        self.data is Compressed
    }

    /// A blank key of the given form: all bytes zero. It encodes no point.
    pub fn new(compressed: bool) -> (key: PublicKey)
        ensures
            key.spec_is_compressed() == compressed,
            key@ == Seq::new(spec_public_key_size(compressed), |i: int| 0u8),
    {
        let key = if compressed {
            PublicKey { data: PublicKeyData::Compressed([0u8; COMPRESSED_PUBLIC_KEY_SIZE]) }
        } else {
            PublicKey { data: PublicKeyData::Uncompressed([0u8; UNCOMPRESSED_PUBLIC_KEY_SIZE]) }
        };
        assert(key@ =~= Seq::new(spec_public_key_size(compressed), |i: int| 0u8));
        key
    }

    /// The key of the given form that a buffer holds in its first bytes.
    pub(crate) fn from_buffer(
        buffer: &[u8; UNCOMPRESSED_PUBLIC_KEY_SIZE],
        compressed: bool,
    ) -> (key: PublicKey)
        ensures
            key.spec_is_compressed() == compressed,
            key@ == buffer@.subrange(0, spec_public_key_size(compressed) as int),
    {
        if compressed {
            let bytes: [u8; COMPRESSED_PUBLIC_KEY_SIZE] = prefix_array(buffer.as_slice());
            PublicKey { data: PublicKeyData::Compressed(bytes) }
        } else {
            let bytes: [u8; UNCOMPRESSED_PUBLIC_KEY_SIZE] = prefix_array(buffer.as_slice());
            PublicKey { data: PublicKeyData::Uncompressed(bytes) }
        }
    }

    /// What to ask the provider for the public key of `sk` in the given
    /// form.
    pub fn from_secret_key_request<'a>(sk: &'a SecretKey, compressed: bool) -> (req:
        PublicKeyRequest<'a>)
        ensures
            req.seckey == sk,
            req.compressed == compressed,
    {
        PublicKeyRequest { seckey: sk, compressed }
    }

    /// Constructs the public key from the provider's reply to a
    /// `from_secret_key_request` that asked for the form `compressed`. The
    /// provider derives a key from every secret key that it accepted, so
    /// the reply is a success.
    pub fn from_secret_key(compressed: bool, reply: &PublicKeyReply) -> (key: PublicKey)
        requires
            reply.code == PROVIDER_OK,
            reply.spec_in_contract(compressed),
        ensures
            spec_is_key_of(key, compressed, *reply),
    {
        PublicKey::from_buffer(&reply.pubkey, compressed)
    }

    /// Converts a slice to a public key by its length: the compressed size
    /// gives a compressed key, the uncompressed size an uncompressed one,
    /// and any other length is refused.
    pub fn from_slice(data: &[u8]) -> (res: Result<PublicKey, Error>)
        ensures
            data@.len() == COMPRESSED_PUBLIC_KEY_SIZE || data@.len()
                == UNCOMPRESSED_PUBLIC_KEY_SIZE ==> res is Ok && res->Ok_0@ == data@,
            data@.len() != COMPRESSED_PUBLIC_KEY_SIZE && data@.len()
                != UNCOMPRESSED_PUBLIC_KEY_SIZE ==> res == Err::<PublicKey, Error>(
                Error::InvalidPublicKey,
            ),
    {
        if data.len() == COMPRESSED_PUBLIC_KEY_SIZE {
            let bytes: [u8; COMPRESSED_PUBLIC_KEY_SIZE] = prefix_array(data);
            assert(data@.subrange(0, COMPRESSED_PUBLIC_KEY_SIZE as int) =~= data@);
            Ok(PublicKey { data: PublicKeyData::Compressed(bytes) })
        } else if data.len() == UNCOMPRESSED_PUBLIC_KEY_SIZE {
            let bytes: [u8; UNCOMPRESSED_PUBLIC_KEY_SIZE] = prefix_array(data);
            assert(data@.subrange(0, UNCOMPRESSED_PUBLIC_KEY_SIZE as int) =~= data@);
            Ok(PublicKey { data: PublicKeyData::Uncompressed(bytes) })
        } else {
            Err(Error::InvalidPublicKey)
        }
    }

    /// Whether the key is in compressed form.
    pub fn is_compressed(&self) -> (compressed: bool)
        ensures
            compressed == self.spec_is_compressed(),
    {
        match self.data {
            PublicKeyData::Compressed(_) => true,
            PublicKeyData::Uncompressed(_) => false,
        }
    }

    /// The length of the key's encoding.
    pub fn len(&self) -> (n: usize)
        ensures
            n == self@.len(),
            n == spec_public_key_size(self.spec_is_compressed()),
    {
        match self.data {
            PublicKeyData::Compressed(_) => COMPRESSED_PUBLIC_KEY_SIZE,
            PublicKeyData::Uncompressed(_) => UNCOMPRESSED_PUBLIC_KEY_SIZE,
        }
    }

    /// The key's encoding.
    pub fn as_slice(&self) -> (bytes: &[u8])
        ensures
            bytes@ == self@,
    {
        match &self.data {
            PublicKeyData::Compressed(bytes) => bytes.as_slice(),
            PublicKeyData::Uncompressed(bytes) => bytes.as_slice(),
        }
    }
}

impl PartialEq for PublicKey {
    fn eq(&self, other: &PublicKey) -> (same: bool) {
        match (&self.data, &other.data) {
            (PublicKeyData::Compressed(a), PublicKeyData::Compressed(b)) => same_bytes(a, b),
            (PublicKeyData::Uncompressed(a), PublicKeyData::Uncompressed(b)) => same_bytes(a, b),
            _ => {
                assert(self@.len() != other@.len());
                false
            },
        }
    }
}

impl Eq for PublicKey {

}

impl vstd::std_specs::cmp::PartialEqSpecImpl for PublicKey {
    open spec fn obeys_eq_spec() -> bool {
        true
    }

    open spec fn eq_spec(&self, other: &PublicKey) -> bool {
        self@ == other@
    }
}

} // verus!
