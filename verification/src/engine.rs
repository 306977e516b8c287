//! The engine: the holder of the nonce source, and the rules of signing,
//! verification and recovery on either side of the provider.

use vstd::prelude::*;
use crypto::fortuna::Fortuna;
use crate::bytes::prefix_array;
use crate::constants::{
    MAX_COMPACT_SIGNATURE_SIZE,
    MAX_SIGNATURE_SIZE,
    SECRET_KEY_SIZE,
    SEED_SIZE,
};
use crate::entropy::{
    fortuna_fill_bytes,
    fortuna_from_seed,
    spec_advanced,
    spec_drawn,
    spec_generator_state,
    spec_is_seeded,
    spec_seeded_state,
};
use crate::error::Error;
use crate::guard::{InitGuard, init, spec_init};
use crate::key::{PublicKey, SecretKey, spec_is_key_of};
use crate::message::Message;
use crate::provider::{
    NonceFunction,
    PROVIDER_OK,
    PublicKeyReply,
    RecoverRequest,
    SignCompactReply,
    SignCompactRequest,
    SignReply,
    SignRequest,
    StartFlags,
    VerifyRequest,
    spec_is_verify_code,
};
use crate::signature::{RecoveryId, Signature};

verus! {

/// The secp256k1 engine, used to execute all signature operations. It owns
/// the nonce source, which is seeded once, when the engine is made.
pub struct Secp256k1 {
    rng: Fortuna,
}

/// One seed gives one stream: two engines whose nonce sources are in the
/// state that the same seed gives draw the same bytes, and are left in the
/// same state, draw after draw.
pub proof fn lemma_same_seed_same_draws(first: Secp256k1, second: Secp256k1, seed: Seq<u8>, n: nat)
    requires
        first.spec_nonce_state() == spec_seeded_state(seed),
        second.spec_nonce_state() == spec_seeded_state(seed),
    ensures
        spec_drawn(first.spec_nonce_state(), n) == spec_drawn(second.spec_nonce_state(), n),
        spec_advanced(first.spec_nonce_state(), n) == spec_advanced(second.spec_nonce_state(), n),
{
}

/// Whether a request to verify carries the given digest, signature bytes
/// and public key, with both lengths as the provider counts them.
pub open spec fn spec_verify_carries(
    req: VerifyRequest,
    msg: &Message,
    sig: Seq<u8>,
    pk: &PublicKey,
) -> bool {
    &&& req.msg == msg
    &&& req.sig@ == sig
    &&& req.sig_len == sig.len()
    &&& req.pubkey == pk
    &&& req.pubkey_len == pk@.len()
}

/// Whether a request to recover carries the given digest, the first
/// `MAX_COMPACT_SIGNATURE_SIZE` of the given bytes, the form asked for and
/// the recovery id.
pub open spec fn spec_recover_carries(
    req: RecoverRequest,
    msg: &Message,
    sig: Seq<u8>,
    compressed: bool,
    recid: RecoveryId,
) -> bool {
    &&& req.msg == msg
    &&& req.sig@ == sig.subrange(0, MAX_COMPACT_SIGNATURE_SIZE as int)
    &&& req.compressed == compressed
    &&& req.recid == recid
}

/// Whether `sig` is the signature that a reply holds: the bytes that the
/// provider reports to have written, in the buffer that it wrote to.
pub open spec fn spec_is_signature_of(sig: Signature, reply: SignReply) -> bool {
    &&& sig@ == reply.sig@.subrange(0, reply.len as int)
    &&& sig@.len() == reply.len
    &&& sig.buffer() == reply.sig@
}

/// Whether `sig` and `recid` are the compact signature and the recovery id
/// that a reply holds.
pub open spec fn spec_is_compact_signature_of(
    sig: Signature,
    recid: RecoveryId,
    reply: SignCompactReply,
) -> bool {
    &&& sig@ == reply.sig@
    &&& sig@.len() == MAX_COMPACT_SIGNATURE_SIZE
    &&& recid@ == reply.recid
}

impl Secp256k1 {
    /// The nonce source is seeded.
    #[verifier::type_invariant]
    spec fn wf(self) -> bool {
        spec_is_seeded(self.rng)
    }

    /// The state of the nonce source: what its next draw follows from.
    pub closed spec fn spec_nonce_state(&self) -> Seq<u8> {
        spec_generator_state(self.rng)
    }

    /// Constructs a new engine from the outcome of drawing `SEED_SIZE`
    /// bytes of entropy. First it does the one-time initialisation on
    /// `guard`, whatever the outcome; the caller performs the start that
    /// this orders. Where the draw succeeded, the nonce source is seeded
    /// with the bytes drawn. Where it failed, the failure is handed on and
    /// no engine is made.
    pub fn new(guard: &mut InitGuard, entropy: Result<[u8; SEED_SIZE], std::io::Error>) -> (res:
        (Option<StartFlags>, Result<Secp256k1, std::io::Error>))
        ensures
            res.0 == spec_init(old(guard).spec_is_started()).1,
            final(guard).spec_is_started(),
            entropy is Ok <==> res.1 is Ok,
            entropy is Ok ==> res.1->Ok_0.spec_nonce_state() == spec_seeded_state(
                entropy->Ok_0@,
            ),
            entropy is Err ==> res.1->Err_0 == entropy->Err_0,
    {
        let start = init(guard);
        match entropy {
            Ok(seed) => (start, Ok(Secp256k1::from_seed(seed.as_slice()))),
            Err(e) => (start, Err(e)),
        }
    }

    /// Constructs an engine whose nonce source is seeded with `seed`: its
    /// state is the one that this seed gives.
    pub fn from_seed(seed: &[u8]) -> (engine: Secp256k1)
        ensures
            engine.spec_nonce_state() == spec_seeded_state(seed@),
    {
        Secp256k1 { rng: fortuna_from_seed(seed) }
    }

    /// Draws the bytes of a secret key from the nonce source, which moves
    /// on by one draw of that many bytes. They become a key once the
    /// provider accepts them as a scalar; where it refuses, draw again.
    pub fn secret_key_candidate(&mut self) -> (bytes: [u8; SECRET_KEY_SIZE])
        ensures
            bytes@ == spec_drawn(old(self).spec_nonce_state(), SECRET_KEY_SIZE as nat),
            final(self).spec_nonce_state() == spec_advanced(
                old(self).spec_nonce_state(),
                SECRET_KEY_SIZE as nat,
            ),
    {
        proof {
            use_type_invariant(&*self);
        }
        let mut bytes: [u8; SECRET_KEY_SIZE] = [0u8; SECRET_KEY_SIZE];
        fortuna_fill_bytes(&mut self.rng, &mut bytes);
        bytes
    }

    /// Pairs a secret key that the provider accepted with the public key
    /// that the provider derived from it, in the form asked for.
    pub fn generate_keypair(
        &self,
        sk: SecretKey,
        compressed: bool,
        reply: &PublicKeyReply,
    ) -> (pair: (SecretKey, PublicKey))
        requires
            reply.code == PROVIDER_OK,
            reply.spec_in_contract(compressed),
        ensures
            pair.0 == sk,
            spec_is_key_of(pair.1, compressed, *reply),
    {
        let pk = PublicKey::from_secret_key(compressed, reply);
        (sk, pk)
    }

    /// What to ask the provider for a signature of `msg` under `sk` in the
    /// variable-length encoding: the nonce is derived from message and key
    /// (RFC 6979), not drawn, and the buffer has room for
    /// `MAX_SIGNATURE_SIZE` bytes.
    pub fn sign_request<'a>(&self, msg: &'a Message, sk: &'a SecretKey) -> (req: SignRequest<'a>)
        ensures
            req.msg == msg,
            req.seckey == sk,
            req.nonce == NonceFunction::Rfc6979,
            req.capacity == MAX_SIGNATURE_SIZE,
    {
        SignRequest {
            msg,
            seckey: sk,
            nonce: NonceFunction::Rfc6979,
            capacity: MAX_SIGNATURE_SIZE as i32,
        }
    }

    /// Constructs the signature from the provider's reply to a
    /// `sign_request`: the bytes that it reports to have written. Any
    /// answer but success is `SignFailed`.
    pub fn sign(&self, reply: &SignReply) -> (res: Result<Signature, Error>)
        requires
            reply.spec_in_contract(),
        ensures
            reply.code != PROVIDER_OK ==> res == Err::<Signature, Error>(Error::SignFailed),
            reply.code == PROVIDER_OK ==> res is Ok,
            res is Ok ==> spec_is_signature_of(res->Ok_0, *reply),
            res is Ok ==> res->Ok_0@.len() <= MAX_SIGNATURE_SIZE,
    {
        if reply.code != PROVIDER_OK {
            return Err(Error::SignFailed);
        }
        Ok(Signature::from_buffer(reply.sig, reply.len as usize))
    }

    /// What to ask the provider for a compact signature of `msg` under
    /// `sk`: the nonce is left to the provider's default.
    pub fn sign_compact_request<'a>(&self, msg: &'a Message, sk: &'a SecretKey) -> (req:
        SignCompactRequest<'a>)
        ensures
            req.msg == msg,
            req.seckey == sk,
            req.nonce == NonceFunction::Default,
    {
        SignCompactRequest { msg, seckey: sk, nonce: NonceFunction::Default }
    }

    /// Constructs the compact signature and its recovery id from the
    /// provider's reply to a `sign_compact_request`. The signature has
    /// `MAX_COMPACT_SIGNATURE_SIZE` bytes: the compact encoding has one
    /// length, and the provider reports none. Any answer but success is
    /// `SignFailed`.
    pub fn sign_compact(&self, reply: &SignCompactReply) -> (res: Result<
        (Signature, RecoveryId),
        Error,
    >)
        requires
            reply.spec_in_contract(),
        ensures
            reply.code != PROVIDER_OK ==> res is Err && res->Err_0 == Error::SignFailed,
            reply.code == PROVIDER_OK ==> res is Ok,
            res is Ok ==> spec_is_compact_signature_of(res->Ok_0.0, res->Ok_0.1, *reply),
    {
        if reply.code != PROVIDER_OK {
            return Err(Error::SignFailed);
        }
        match (Signature::from_slice(reply.sig.as_slice()), RecoveryId::from_i32(reply.recid)) {
            (Ok(sig), Some(recid)) => Ok((sig, recid)),
            _ => Err(Error::SignFailed),
        }
    }

    /// What to ask the provider to recover the public key behind a compact
    /// signature: the first `MAX_COMPACT_SIGNATURE_SIZE` bytes of `sig`,
    /// the recovery id and the form of the key. A slice too short to hold a
    /// compact signature is refused as `InvalidSignature` and the provider
    /// is not asked.
    pub fn recover_compact_request<'a>(
        &self,
        msg: &'a Message,
        sig: &[u8],
        compressed: bool,
        recid: RecoveryId,
    ) -> (res: Result<RecoverRequest<'a>, Error>)
        ensures
            sig@.len() < MAX_COMPACT_SIGNATURE_SIZE ==> res is Err && res->Err_0
                == Error::InvalidSignature,
            sig@.len() >= MAX_COMPACT_SIGNATURE_SIZE ==> res is Ok,
            res is Ok ==> spec_recover_carries(res->Ok_0, msg, sig@, compressed, recid),
    {
        if sig.len() < MAX_COMPACT_SIGNATURE_SIZE {
            return Err(Error::InvalidSignature);
        }
        let bytes: [u8; MAX_COMPACT_SIGNATURE_SIZE] = prefix_array(sig);
        Ok(RecoverRequest { msg, sig: bytes, compressed, recid })
    }

    /// Determines the public key from the provider's reply to a
    /// `recover_compact_request` that asked for the form `compressed`.
    /// Any answer but success is `InvalidSignature`.
    pub fn recover_compact(&self, compressed: bool, reply: &PublicKeyReply) -> (res: Result<
        PublicKey,
        Error,
    >)
        requires
            reply.spec_in_contract(compressed),
        ensures
            reply.code != PROVIDER_OK ==> res == Err::<PublicKey, Error>(Error::InvalidSignature),
            reply.code == PROVIDER_OK ==> res is Ok,
            res is Ok ==> spec_is_key_of(res->Ok_0, compressed, *reply),
    {
        if reply.code != PROVIDER_OK {
            return Err(Error::InvalidSignature);
        }
        Ok(PublicKey::from_buffer(&reply.pubkey, compressed))
    }

    /// What to ask the provider to check `sig` as a signature of `msg`
    /// under `pk`: the signature's own bytes, none of the buffer behind
    /// them. It is the request that `verify_raw_request` makes for those
    /// bytes.
    ///
    /// Verification needs no engine, so it does the one-time initialisation
    /// on `guard` itself; the caller performs the start that this orders
    /// before it asks the provider.
    pub fn verify_request<'a>(
        guard: &mut InitGuard,
        msg: &'a Message,
        sig: &'a Signature,
        pk: &'a PublicKey,
    ) -> (res: (Option<StartFlags>, VerifyRequest<'a>))
        ensures
            res.0 == spec_init(old(guard).spec_is_started()).1,
            final(guard).spec_is_started(),
            spec_verify_carries(res.1, msg, sig@, pk),
    {
        let start = init(guard);
        let bytes = sig.as_slice();
        let sig_len = sig.len();
        let req = VerifyRequest {
            msg,
            sig: bytes,
            sig_len: sig_len as i32,
            pubkey: pk,
            pubkey_len: pk.len() as i32,
        };
        (start, req)
    }

    /// What to ask the provider to check the bytes `sig`, of any producer
    /// and any length, as a signature of `msg` under `pk`. Bytes whose
    /// number the provider cannot count are refused as `InvalidSignature`
    /// and the provider is not asked.
    ///
    /// Verification needs no engine, so it does the one-time initialisation
    /// on `guard` itself, whatever the bytes; the caller performs the
    /// start that this orders before it asks the provider.
    pub fn verify_raw_request<'a>(
        guard: &mut InitGuard,
        msg: &'a Message,
        sig: &'a [u8],
        pk: &'a PublicKey,
    ) -> (res: (Option<StartFlags>, Result<VerifyRequest<'a>, Error>))
        ensures
            res.0 == spec_init(old(guard).spec_is_started()).1,
            final(guard).spec_is_started(),
            sig@.len() > i32::MAX ==> res.1 is Err && res.1->Err_0 == Error::InvalidSignature,
            sig@.len() <= i32::MAX ==> res.1 is Ok,
            res.1 is Ok ==> spec_verify_carries(res.1->Ok_0, msg, sig@, pk),
    {
        let start = init(guard);
        if sig.len() > 0x7fff_ffff {
            return (start, Err(Error::InvalidSignature));
        }
        let req = VerifyRequest {
            msg,
            sig,
            sig_len: sig.len() as i32,
            pubkey: pk,
            pubkey_len: pk.len() as i32,
        };
        (start, Ok(req))
    }

    /// Says what the provider's answer to a `verify_request` means.
    pub fn verify(code: i32) -> (res: Result<(), Error>)
        requires
            spec_is_verify_code(code),
        ensures
            code == 1 <==> res is Ok,
            code == 0 <==> res == Err::<(), Error>(Error::IncorrectSignature),
            code == -1 <==> res == Err::<(), Error>(Error::InvalidPublicKey),
            code == -2 <==> res == Err::<(), Error>(Error::InvalidSignature),
    {
        Secp256k1::verify_raw(code)
    }

    /// Says what the provider's answer to a `verify_raw_request` means: 1
    /// is a valid signature, 0 a well-formed signature that does not
    /// verify, -1 a malformed public key, -2 a malformed signature.
    pub fn verify_raw(code: i32) -> (res: Result<(), Error>)
        requires
            spec_is_verify_code(code),
        ensures
            code == 1 <==> res is Ok,
            code == 0 <==> res == Err::<(), Error>(Error::IncorrectSignature),
            code == -1 <==> res == Err::<(), Error>(Error::InvalidPublicKey),
            code == -2 <==> res == Err::<(), Error>(Error::InvalidSignature),
    {
        if code == 1 {
            Ok(())
        } else if code == 0 {
            Err(Error::IncorrectSignature)
        } else if code == -1 {
            Err(Error::InvalidPublicKey)
        } else {
            Err(Error::InvalidSignature)
        }
    }
}

/// A signature that `sign` made of a reply goes to verification whole and
/// alone: the request that `verify_request` makes for it carries the bytes
/// that the provider reported to have written, no more and no fewer, and
/// counts them as the provider did.
pub proof fn lemma_verify_is_asked_what_sign_wrote(
    reply: SignReply,
    sig: Signature,
    msg: &Message,
    pk: &PublicKey,
    req: VerifyRequest,
)
    requires
        spec_is_signature_of(sig, reply),
        spec_verify_carries(req, msg, sig@, pk),
    ensures
        req.sig@ == reply.sig@.subrange(0, reply.len as int),
        req.sig_len == reply.len,
        req.msg == msg,
        req.pubkey == pk,
{
}

/// A compact signature that `sign_compact` made of a reply is never refused
/// by `recover_compact_request` for its length, and the request carries the
/// bytes and the recovery id of that reply.
pub proof fn lemma_recover_is_asked_what_sign_compact_wrote(
    reply: SignCompactReply,
    sig: Signature,
    recid: RecoveryId,
    msg: &Message,
    compressed: bool,
    req: RecoverRequest,
)
    requires
        spec_is_compact_signature_of(sig, recid, reply),
        spec_recover_carries(req, msg, sig@, compressed, recid),
    ensures
        sig@.len() >= MAX_COMPACT_SIGNATURE_SIZE,
        req.sig@ == reply.sig@,
        req.recid@ == reply.recid,
        req.msg == msg,
        req.compressed == compressed,
{
    assert(sig@.subrange(0, MAX_COMPACT_SIGNATURE_SIZE as int) =~= sig@);
}

} // verus!
