//! The two sides of each operation, with replies written out by hand.

use secp256k1::{init, Error, InitGuard, Message, RecoveryId, Secp256k1, Signature};
use secp256k1::key::{PublicKey, SecretKey};
use secp256k1::provider::{
    is_verify_code, NonceFunction, PublicKeyReply, SignCompactReply, SignReply, StartFlags,
    PROVIDER_OK,
};

fn counting(n: usize) -> Vec<u8> {
    (0..n).map(|i| (i + 1) as u8).collect()
}

fn engine() -> Secp256k1 {
    Secp256k1::from_seed(&[42u8; 64])
}

fn message() -> Message {
    Message::from_slice(&counting(32)).unwrap()
}

fn secret_key() -> SecretKey {
    SecretKey::from_slice(&[0x11u8; 32], 1).ok().unwrap()
}

fn sign_reply(code: i32, len: i32) -> SignReply {
    let mut sig = [0u8; 72];
    sig.copy_from_slice(&counting(72));
    SignReply { code, sig, len }
}

fn key_reply(code: i32, len: i32) -> PublicKeyReply {
    let mut pubkey = [0u8; 65];
    pubkey.copy_from_slice(&counting(65));
    PublicKeyReply { code, pubkey, len }
}

#[test]
fn init_orders_one_start_with_both_capabilities() {
    let mut guard = InitGuard::new();
    assert!(!guard.is_started());
    assert_eq!(init(&mut guard), Some(StartFlags { verify: true, sign: true }));
    assert!(guard.is_started());
    assert_eq!(init(&mut guard), None);
    assert_eq!(init(&mut guard), None);
    assert!(guard.is_started());
}

#[test]
fn new_engine_initialises_first() {
    let mut guard = InitGuard::new();
    let (start, first) = Secp256k1::new(&mut guard, Ok([7u8; 2048]));
    assert_eq!(start, Some(StartFlags { verify: true, sign: true }));
    assert!(guard.is_started());
    assert!(first.is_ok());
    let (start, second) = Secp256k1::new(&mut guard, Ok([7u8; 2048]));
    assert_eq!(start, None);
    assert!(second.is_ok());
}

#[test]
fn new_engine_hands_a_failed_draw_on() {
    let mut guard = InitGuard::new();
    let failure = std::io::Error::new(std::io::ErrorKind::PermissionDenied, "refused");
    let (start, engine) = Secp256k1::new(&mut guard, Err(failure));
    assert_eq!(start, Some(StartFlags { verify: true, sign: true }));
    assert!(guard.is_started());
    let error = engine.err().unwrap();
    assert_eq!(error.kind(), std::io::ErrorKind::PermissionDenied);
    assert_eq!(error.to_string(), "refused");

    let failure = std::io::Error::new(std::io::ErrorKind::UnexpectedEof, "short");
    let (start, engine) = Secp256k1::new(&mut guard, Err(failure));
    assert_eq!(start, None);
    assert_eq!(engine.err().unwrap().kind(), std::io::ErrorKind::UnexpectedEof);
}

#[test]
fn new_engine_is_seeded_with_the_bytes_drawn() {
    let mut guard = InitGuard::new();
    let mut drawn = [0u8; 2048];
    for (i, byte) in drawn.iter_mut().enumerate() {
        *byte = (i % 251) as u8;
    }
    let mut made = Secp256k1::new(&mut guard, Ok(drawn)).1.unwrap();
    let mut seeded = Secp256k1::from_seed(&drawn);
    assert_eq!(made.secret_key_candidate(), seeded.secret_key_candidate());
    assert_eq!(made.secret_key_candidate(), seeded.secret_key_candidate());

    // Every byte drawn counts: the last one too.
    let mut changed = drawn;
    changed[2047] ^= 1;
    let mut other = Secp256k1::new(&mut guard, Ok(changed)).1.unwrap();
    let mut base = Secp256k1::from_seed(&drawn);
    assert_ne!(other.secret_key_candidate(), base.secret_key_candidate());
}

#[test]
fn engines_of_different_draws_draw_differently() {
    let mut guard = InitGuard::new();
    let mut a = Secp256k1::new(&mut guard, Ok([1u8; 2048])).1.unwrap();
    let mut b = Secp256k1::new(&mut guard, Ok([2u8; 2048])).1.unwrap();
    assert_ne!(a.secret_key_candidate(), b.secret_key_candidate());
}

#[test]
fn sign_request_asks_for_a_deterministic_nonce() {
    let (s, msg, sk) = (engine(), message(), secret_key());
    let req = s.sign_request(&msg, &sk);
    assert_eq!(req.msg, &msg);
    assert!(req.seckey == &sk);
    assert_eq!(req.nonce, NonceFunction::Rfc6979);
    assert_eq!(req.capacity, 72);
}

#[test]
fn sign_takes_the_reported_length() {
    let s = engine();
    let reply = sign_reply(1, 70);
    assert!(reply.in_contract());
    let sig = s.sign(&reply).unwrap();
    assert_eq!(sig.len(), 70);
    assert_eq!(sig.as_slice(), &counting(70)[..]);
    assert_eq!(&sig.as_ptr()[..], &counting(72)[..]);

    let sig = s.sign(&sign_reply(1, 72)).unwrap();
    assert_eq!(sig.len(), 72);
    let sig = s.sign(&sign_reply(1, 0)).unwrap();
    assert_eq!(sig.len(), 0);
}

#[test]
fn sign_fails_on_any_answer_but_success() {
    let s = engine();
    for code in [0, -1, 2, i32::MIN, i32::MAX] {
        let reply = sign_reply(code, 70);
        assert!(reply.in_contract());
        assert_eq!(s.sign(&reply), Err(Error::SignFailed));
    }
    // A failed reply may report any length.
    let reply = sign_reply(0, 1000);
    assert!(reply.in_contract());
    assert_eq!(s.sign(&reply), Err(Error::SignFailed));
}

#[test]
fn sign_reply_with_a_length_outside_the_buffer_breaks_the_contract() {
    assert!(!sign_reply(1, 73).in_contract());
    assert!(!sign_reply(1, -1).in_contract());
    assert!(!sign_reply(1, i32::MIN).in_contract());
    assert!(sign_reply(1, 72).in_contract());
    assert!(sign_reply(1, 0).in_contract());
    assert_eq!(PROVIDER_OK, 1);
}

#[test]
fn sign_compact_request_leaves_the_nonce_to_the_provider() {
    let (s, msg, sk) = (engine(), message(), secret_key());
    let req = s.sign_compact_request(&msg, &sk);
    assert_eq!(req.msg, &msg);
    assert!(req.seckey == &sk);
    assert_eq!(req.nonce, NonceFunction::Default);
}

#[test]
fn sign_compact_gives_64_bytes_and_the_recovery_id() {
    let s = engine();
    let mut sig = [0u8; 64];
    sig.copy_from_slice(&counting(64));
    for id in 0..4 {
        let reply = SignCompactReply { code: 1, sig, recid: id };
        assert!(reply.in_contract());
        let (signature, recid) = s.sign_compact(&reply).unwrap();
        assert_eq!(signature.len(), 64);
        assert_eq!(signature.as_slice(), &counting(64)[..]);
        assert_eq!(&signature.as_ptr()[64..], &[0u8; 8][..]);
        assert_eq!(recid.to_i32(), id);
    }
}

#[test]
fn sign_compact_fails_on_any_answer_but_success() {
    let s = engine();
    for code in [0, -1, 2, i32::MIN, i32::MAX] {
        let reply = SignCompactReply { code, sig: [9u8; 64], recid: 7 };
        assert!(reply.in_contract());
        assert_eq!(s.sign_compact(&reply).err(), Some(Error::SignFailed));
    }
}

#[test]
fn sign_compact_reply_with_a_recovery_id_outside_the_four_breaks_the_contract() {
    assert!(!SignCompactReply { code: 1, sig: [0u8; 64], recid: 4 }.in_contract());
    assert!(!SignCompactReply { code: 1, sig: [0u8; 64], recid: -1 }.in_contract());
    assert!(SignCompactReply { code: 1, sig: [0u8; 64], recid: 3 }.in_contract());
    assert!(SignCompactReply { code: 1, sig: [0u8; 64], recid: 0 }.in_contract());
}

#[test]
fn recover_request_carries_the_first_64_bytes() {
    let (s, msg) = (engine(), message());
    let recid = RecoveryId::from_i32(2).unwrap();

    let req = s.recover_compact_request(&msg, &counting(64), true, recid).unwrap();
    assert_eq!(req.msg, &msg);
    assert_eq!(&req.sig[..], &counting(64)[..]);
    assert!(req.compressed);
    assert_eq!(req.recid, recid);

    let req = s.recover_compact_request(&msg, &counting(72), false, recid).unwrap();
    assert_eq!(&req.sig[..], &counting(64)[..]);
    assert!(!req.compressed);
}

#[test]
fn recover_request_refuses_fewer_than_64_bytes() {
    let (s, msg) = (engine(), message());
    let recid = RecoveryId::from_i32(0).unwrap();
    for n in [0usize, 1, 32, 63] {
        assert_eq!(
            s.recover_compact_request(&msg, &counting(n), false, recid).err(),
            Some(Error::InvalidSignature)
        );
    }
}

#[test]
fn recover_compact_takes_the_key_of_the_form_asked_for() {
    let s = engine();
    let reply = key_reply(1, 33);
    assert!(reply.in_contract(true));
    let pk = s.recover_compact(true, &reply).unwrap();
    assert!(pk.is_compressed());
    assert_eq!(pk.as_slice(), &counting(33)[..]);

    let reply = key_reply(1, 65);
    assert!(reply.in_contract(false));
    let pk = s.recover_compact(false, &reply).unwrap();
    assert!(!pk.is_compressed());
    assert_eq!(pk.as_slice(), &counting(65)[..]);
}

#[test]
fn recover_compact_fails_on_any_answer_but_success() {
    let s = engine();
    for code in [0, -1, -2, 2, i32::MIN, i32::MAX] {
        let reply = key_reply(code, 0);
        assert!(reply.in_contract(true) && reply.in_contract(false));
        assert_eq!(s.recover_compact(true, &reply), Err(Error::InvalidSignature));
        assert_eq!(s.recover_compact(false, &reply), Err(Error::InvalidSignature));
    }
}

#[test]
fn key_reply_of_the_other_form_breaks_the_contract() {
    assert!(!key_reply(1, 65).in_contract(true));
    assert!(!key_reply(1, 33).in_contract(false));
    assert!(!key_reply(1, 0).in_contract(true));
    assert!(!key_reply(1, 64).in_contract(false));
    assert!(key_reply(1, 33).in_contract(true));
    assert!(key_reply(1, 65).in_contract(false));
}

#[test]
fn public_key_of_a_secret_key() {
    let sk = secret_key();
    let req = PublicKey::from_secret_key_request(&sk, true);
    assert!(req.seckey == &sk);
    assert!(req.compressed);
    let req = PublicKey::from_secret_key_request(&sk, false);
    assert!(!req.compressed);

    let pk = PublicKey::from_secret_key(true, &key_reply(1, 33));
    assert_eq!(pk, PublicKey::from_slice(&counting(33)).unwrap());
    let pk = PublicKey::from_secret_key(false, &key_reply(1, 65));
    assert_eq!(pk, PublicKey::from_slice(&counting(65)).unwrap());
}

#[test]
fn generate_keypair_pairs_the_key_with_what_the_provider_derived() {
    let s = engine();
    let (sk, pk) = s.generate_keypair(secret_key(), true, &key_reply(1, 33));
    assert!(sk == secret_key());
    assert_eq!(pk.as_slice(), &counting(33)[..]);
    let (sk, pk) = s.generate_keypair(secret_key(), false, &key_reply(1, 65));
    assert!(sk == secret_key());
    assert_eq!(pk.as_slice(), &counting(65)[..]);
}

#[test]
fn verify_request_carries_the_signature_without_the_rest_of_the_buffer() {
    let mut guard = InitGuard::new();
    let msg = message();
    let sig = Signature::from_slice(&counting(70)).unwrap();
    let pk = PublicKey::new(true);
    let (start, req) = Secp256k1::verify_request(&mut guard, &msg, &sig, &pk);
    assert_eq!(start, Some(StartFlags { verify: true, sign: true }));
    assert_eq!(req.msg, &msg);
    assert_eq!(req.sig, &counting(70)[..]);
    assert_eq!(req.sig_len, 70);
    assert_eq!(req.pubkey, &pk);
    assert_eq!(req.pubkey_len, 33);

    let pk = PublicKey::new(false);
    let (start, req) = Secp256k1::verify_request(&mut guard, &msg, &sig, &pk);
    assert_eq!(start, None);
    assert_eq!(req.pubkey_len, 65);
}

#[test]
fn verify_raw_request_carries_bytes_of_any_length() {
    let mut guard = InitGuard::new();
    let msg = message();
    let pk = PublicKey::new(false);
    let long = counting(200);
    let (start, req) = Secp256k1::verify_raw_request(&mut guard, &msg, &long, &pk);
    let req = req.ok().unwrap();
    assert_eq!(start, Some(StartFlags { verify: true, sign: true }));
    assert_eq!(req.sig, &long[..]);
    assert_eq!(req.sig_len, 200);
    assert_eq!(req.pubkey_len, 65);

    let (start, req) = Secp256k1::verify_raw_request(&mut guard, &msg, &[], &pk);
    let req = req.ok().unwrap();
    assert_eq!(start, None);
    assert_eq!(req.sig_len, 0);
    assert!(guard.is_started());
}

#[test]
fn verify_request_is_the_raw_request_for_the_signature_bytes() {
    let msg = message();
    let sig = Signature::from_slice(&counting(71)).unwrap();
    let pk = PublicKey::from_slice(&counting(33)).unwrap();
    let (mut g1, mut g2) = (InitGuard::new(), InitGuard::new());
    let (s1, a) = Secp256k1::verify_request(&mut g1, &msg, &sig, &pk);
    let (s2, b) = Secp256k1::verify_raw_request(&mut g2, &msg, sig.as_slice(), &pk);
    let b = b.ok().unwrap();
    assert_eq!(s1, s2);
    assert_eq!(a.msg, b.msg);
    assert_eq!(a.sig, b.sig);
    assert_eq!(a.sig_len, b.sig_len);
    assert_eq!(a.pubkey, b.pubkey);
    assert_eq!(a.pubkey_len, b.pubkey_len);
}

#[test]
fn verify_maps_the_four_answers() {
    assert_eq!(Secp256k1::verify(1), Ok(()));
    assert_eq!(Secp256k1::verify(0), Err(Error::IncorrectSignature));
    assert_eq!(Secp256k1::verify(-1), Err(Error::InvalidPublicKey));
    assert_eq!(Secp256k1::verify(-2), Err(Error::InvalidSignature));
    assert_eq!(Secp256k1::verify_raw(1), Ok(()));
    assert_eq!(Secp256k1::verify_raw(0), Err(Error::IncorrectSignature));
    assert_eq!(Secp256k1::verify_raw(-1), Err(Error::InvalidPublicKey));
    assert_eq!(Secp256k1::verify_raw(-2), Err(Error::InvalidSignature));
}

#[test]
fn only_four_answers_are_verification_answers() {
    for code in [-2, -1, 0, 1] {
        assert!(is_verify_code(code));
    }
    for code in [-3, 2, 100, i32::MIN, i32::MAX] {
        assert!(!is_verify_code(code));
    }
}
