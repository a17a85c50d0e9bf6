//! Keys, channels, handshakes and nonces.

use std::time::{Duration, Instant};

use rivetlink::crypto::challenge::{check_age, Nonce, NonceStore, SharedNonceStore, NONCE_SIZE};
use rivetlink::crypto::error::CryptoError;
use rivetlink::crypto::handshake;
use rivetlink::crypto::handshake::{exchange_between, verify_peer};
use rivetlink::crypto::hybrid::{HybridIdentity, HybridSharedSecret, HybridSignature};
use rivetlink::crypto::identity::{DeviceIdentity, SigningKey, VerifyingKey};
use rivetlink::crypto::pake;
use rivetlink::crypto::pake::agree_between;
use rivetlink::crypto::pq_identity::PqIdentity;
use rivetlink::crypto::pq_kem::{encapsulate, PqCiphertext, PqKeyPair};
use rivetlink::crypto::primitives::random_32;
use rivetlink::crypto::sealed::{SealedChannel, NONCE_LEN};
use rivetlink::crypto::session_keys::SessionKeyPair;

fn wait(millis: u64) {
    let begin = Instant::now();
    while begin.elapsed() < Duration::from_millis(millis) {}
}

fn identity() -> SigningKey {
    SigningKey::from_bytes(&random_32())
}

fn channel() -> SealedChannel {
    SealedChannel::from_shared_secret(&[7u8; 32])
}

#[test]
fn nonce_is_random() {
    let a = Nonce::generate();
    let b = Nonce::generate();
    assert_ne!(a.as_bytes(), b.as_bytes());
}

#[test]
fn fresh_nonce_is_valid() {
    let nonce = Nonce::generate();
    assert!(nonce.validate().is_ok());
    assert!(!nonce.is_expired());
}

#[test]
fn nonce_has_correct_size() {
    let nonce = Nonce::generate();
    assert_eq!(nonce.as_bytes().len(), 32);
}

#[test]
fn store_issues_and_consumes() {
    let mut store = NonceStore::default();
    let nonce = store.issue();
    assert_eq!(store.pending(), 1);

    assert!(store.consume(nonce.as_bytes()).is_ok());
    assert_eq!(store.pending(), 0);
}

#[test]
fn store_rejects_unknown_nonce() {
    let mut store = NonceStore::default();
    let bogus = [0u8; NONCE_SIZE];
    assert!(matches!(store.consume(&bogus), Err(CryptoError::NonceReused)));
}

#[test]
fn store_rejects_double_consume() {
    let mut store = NonceStore::default();
    let nonce = store.issue();
    store.consume(nonce.as_bytes()).unwrap();
    assert!(matches!(store.consume(nonce.as_bytes()), Err(CryptoError::NonceReused)));
}

#[test]
fn store_rejects_expired_nonce() {
    let mut store = NonceStore::new(Duration::from_millis(10));
    let nonce = store.issue();
    wait(40);
    assert!(matches!(store.consume(nonce.as_bytes()), Err(CryptoError::NonceExpired)));
    // Expired entry was still removed from the map.
    assert_eq!(store.pending(), 0);
}

#[test]
fn cleanup_removes_only_expired() {
    let mut store = NonceStore::new(Duration::from_millis(20));
    let old = store.issue();
    wait(50);
    let fresh = store.issue();

    let removed = store.cleanup_expired();
    assert_eq!(removed, 1);
    assert_eq!(store.pending(), 1);

    // The expired nonce is gone, the fresh one still works.
    assert!(matches!(store.consume(old.as_bytes()), Err(CryptoError::NonceReused)));
    assert!(store.consume(fresh.as_bytes()).is_ok());
}

#[test]
fn store_is_cheap_to_clone() {
    let a = SharedNonceStore::new(NonceStore::default());
    let b = a.clone();
    let nonce = a.issue();
    // Same underlying store.
    assert!(b.consume(nonce.as_bytes()).is_ok());
    assert_eq!(a.pending(), 0);
}

#[test]
fn nonce_age_is_bounded() {
    assert!(check_age(Duration::from_secs(30)).is_ok());
    let late = Duration::from_secs(30) + Duration::from_nanos(1);
    assert!(matches!(check_age(late), Err(CryptoError::NonceExpired)));
}

#[test]
fn consuming_is_exact_about_time() {
    let mut store = NonceStore::new(Duration::from_secs(1));
    let first = store.issue();
    assert!(store.consume_at(first.as_bytes(), 0).is_ok());
    let second = store.issue();
    assert!(matches!(
        store.consume_at(second.as_bytes(), u128::MAX),
        Err(CryptoError::NonceExpired)
    ));
    let third = store.issue();
    assert_eq!(store.cleanup_at(0), 0);
    assert_eq!(store.cleanup_at(u128::MAX), 1);
    assert!(matches!(store.consume_at(third.as_bytes(), 0), Err(CryptoError::NonceReused)));
}

#[test]
fn consuming_one_nonce_leaves_the_others() {
    let mut store = NonceStore::default();
    let first = store.issue();
    let second = store.issue();
    assert!(store.consume(first.as_bytes()).is_ok());
    assert!(store.consume(second.as_bytes()).is_ok());
}

#[test]
fn both_sides_derive_same_channel() {
    let client_id = identity();
    let host_id = identity();

    let client = handshake::start(&client_id);
    let host = handshake::start(&host_id);

    // Each verifies the other's signed ephemeral key.
    verify_peer(&host_id.verifying_key(), host.ephemeral_public(), host.signature())
        .expect("client verifies host");
    verify_peer(&client_id.verifying_key(), client.ephemeral_public(), client.signature())
        .expect("host verifies client");

    let client_eph = *client.ephemeral_public();
    let host_eph = *host.ephemeral_public();

    let client_ch = client.into_channel(&host_eph);
    let host_ch = host.into_channel(&client_eph);

    let sealed = client_ch.seal(b"frame bytes").unwrap();
    assert_eq!(host_ch.open(&sealed).unwrap(), b"frame bytes");
}

#[test]
fn rejects_forged_ephemeral_key() {
    let real_id = identity();
    let real = handshake::start(&real_id);

    // Relay swaps the ephemeral key but cannot re-sign with the identity.
    let mut forged = *real.ephemeral_public();
    forged[0] ^= 0xff;

    assert!(matches!(
        verify_peer(&real_id.verifying_key(), &forged, real.signature()),
        Err(CryptoError::InvalidSignature)
    ));
}

#[test]
fn rejects_wrong_identity() {
    let real_id = identity();
    let attacker_id = identity();
    let exchange = handshake::start(&real_id);

    assert!(matches!(
        verify_peer(
            &attacker_id.verifying_key(),
            exchange.ephemeral_public(),
            exchange.signature(),
        ),
        Err(CryptoError::InvalidSignature)
    ));
}

#[test]
fn an_exchange_carries_a_message() {
    let opened = exchange_between(&identity(), &identity(), b"across").unwrap();
    assert_eq!(opened, b"across");
}

#[test]
fn hybrid_kdf_produces_deterministic_output() {
    let classical_a = SessionKeyPair::generate();
    let classical_b = SessionKeyPair::generate();

    let pub_b = *classical_b.public_key();

    let shared_classical = classical_a.derive_shared_secret(&pub_b);

    let pq_kp = PqKeyPair::generate();
    let ek = pq_kp.encapsulation_key();
    let (ct, pq_sender) = encapsulate(&ek);
    let pq_receiver = pq_kp.decapsulate(&ct);

    let hybrid = HybridSharedSecret::derive(&shared_classical, &pq_sender).unwrap();
    assert_eq!(pq_sender.as_bytes(), pq_receiver.as_bytes());
    assert_eq!(hybrid.as_bytes().len(), 32);
}

#[test]
fn hybrid_secret_depends_on_both_parts() {
    let pub_b = *SessionKeyPair::generate().public_key();
    let classical = SessionKeyPair::generate().derive_shared_secret(&pub_b);
    let other = SessionKeyPair::generate().derive_shared_secret(&pub_b);
    let pair = PqKeyPair::generate();
    let (_, pq) = encapsulate(&pair.encapsulation_key());
    let (_, pq_other) = encapsulate(&pair.encapsulation_key());
    let base = HybridSharedSecret::derive(&classical, &pq).unwrap();
    let again = HybridSharedSecret::derive(&classical, &pq).unwrap();
    let first = HybridSharedSecret::derive(&other, &pq).unwrap();
    let second = HybridSharedSecret::derive(&classical, &pq_other).unwrap();
    assert_eq!(base.as_bytes(), again.as_bytes());
    assert_ne!(base.as_bytes(), first.as_bytes());
    assert_ne!(base.as_bytes(), second.as_bytes());
    assert_ne!(base.as_bytes(), classical.as_bytes());
}

#[test]
fn hybrid_sign_and_verify() {
    let identity = HybridIdentity::generate();
    let message = b"rivetlink hybrid auth challenge";

    let sig = identity.sign(message);

    let ed25519_pk = identity.ed25519_public_key();
    let ml_dsa_vk = identity.ml_dsa_verifying_key();

    assert!(HybridIdentity::verify_hybrid(&ed25519_pk, &ml_dsa_vk, message, &sig).is_ok());
}

#[test]
fn hybrid_verify_fails_with_wrong_classical_key() {
    let identity_a = HybridIdentity::generate();
    let identity_b = HybridIdentity::generate();
    let message = b"test message";

    let sig = identity_a.sign(message);

    let wrong_ed25519 = identity_b.ed25519_public_key();
    let correct_ml_dsa = identity_a.ml_dsa_verifying_key();

    assert!(matches!(
        HybridIdentity::verify_hybrid(&wrong_ed25519, &correct_ml_dsa, message, &sig),
        Err(CryptoError::InvalidSignature)
    ));
}

#[test]
fn hybrid_verify_fails_with_wrong_pq_key() {
    let identity_a = HybridIdentity::generate();
    let identity_b = HybridIdentity::generate();
    let message = b"test message";

    let sig = identity_a.sign(message);

    let correct_ed25519 = identity_a.ed25519_public_key();
    let wrong_ml_dsa = identity_b.ml_dsa_verifying_key();

    assert!(matches!(
        HybridIdentity::verify_hybrid(&correct_ed25519, &wrong_ml_dsa, message, &sig),
        Err(CryptoError::InvalidPqSignature)
    ));
}

#[test]
fn both_signatures_required() {
    let identity_a = HybridIdentity::generate();
    let identity_b = HybridIdentity::generate();
    let message = b"test message";

    // Mix signatures from different identities
    let sig_a = identity_a.sign(message);
    let sig_b = identity_b.sign(message);

    let mixed_sig = HybridSignature { ed25519: sig_a.ed25519, ml_dsa: sig_b.ml_dsa };

    let ed25519_pk = identity_a.ed25519_public_key();
    let ml_dsa_vk = identity_a.ml_dsa_verifying_key();

    // Should fail: PQ sig is from identity_b
    assert!(HybridIdentity::verify_hybrid(&ed25519_pk, &ml_dsa_vk, message, &mixed_sig).is_err());
}

#[test]
fn a_hybrid_signature_can_be_tried() {
    let identity = HybridIdentity::generate();
    let sig = identity.try_sign(b"challenge").unwrap();
    assert!(HybridIdentity::verify_hybrid(
        &identity.ed25519_public_key(),
        &identity.ml_dsa_verifying_key(),
        b"challenge",
        &sig,
    )
    .is_ok());
}

#[test]
fn sign_and_verify() {
    let identity = DeviceIdentity::generate();
    let message = b"test challenge nonce";

    let signature = identity.sign(message);
    let public_key = identity.public_key();

    assert!(DeviceIdentity::verify(&public_key, message, &signature).is_ok());
}

#[test]
fn reject_invalid_signature() {
    let identity_a = DeviceIdentity::generate();
    let identity_b = DeviceIdentity::generate();
    let message = b"test challenge nonce";

    let signature = identity_a.sign(message);
    let wrong_key = identity_b.public_key();

    assert!(matches!(
        DeviceIdentity::verify(&wrong_key, message, &signature),
        Err(CryptoError::InvalidSignature)
    ));
}

#[test]
fn reject_tampered_message() {
    let identity = DeviceIdentity::generate();
    let message = b"original message";
    let tampered = b"tampered message";

    let signature = identity.sign(message);
    let public_key = identity.public_key();

    assert!(matches!(
        DeviceIdentity::verify(&public_key, tampered, &signature),
        Err(CryptoError::InvalidSignature)
    ));
}

#[test]
fn ed25519_gives_the_published_vector() {
    // The second test vector of RFC 8032, section 7.1.
    let seed = [
        0x4c, 0xcd, 0x08, 0x9b, 0x28, 0xff, 0x96, 0xda, 0x9d, 0xb6, 0xc3, 0x46, 0xec, 0x11, 0x4e,
        0x0f, 0x5b, 0x8a, 0x31, 0x9f, 0x35, 0xab, 0xa6, 0x24, 0xda, 0x8c, 0xf6, 0xed, 0x4f, 0xb8,
        0xa6, 0xfb,
    ];
    let public = [
        0x3d, 0x40, 0x17, 0xc3, 0xe8, 0x43, 0x89, 0x5a, 0x92, 0xb7, 0x0a, 0xa7, 0x4d, 0x1b, 0x7e,
        0xbc, 0x9c, 0x98, 0x2c, 0xcf, 0x2e, 0xc4, 0x96, 0x8c, 0xc0, 0xcd, 0x55, 0xf1, 0x2a, 0xf4,
        0x66, 0x0c,
    ];
    let key = SigningKey::from_bytes(&seed);
    assert_eq!(key.verifying_key().to_bytes(), public);
    let signature = key.sign(&[0x72]).to_bytes();
    assert_eq!(signature[..4], [0x92, 0xa0, 0x09, 0xa9]);
}

#[test]
fn a_key_off_the_curve_is_refused() {
    let mut bytes = [0u8; 32];
    bytes[0] = 2;
    match VerifyingKey::from_bytes(&bytes) {
        Ok(_) => panic!("accepted"),
        Err(fault) => {
            assert_eq!(fault, "signature error: Cannot decompress Edwards point");
        }
    }
}

#[test]
fn matching_password_interoperates() {
    let a = pake::start(b"correct horse");
    let b = pake::start(b"correct horse");
    let chan_a = a.handshake.finish(&b.message).unwrap();
    let chan_b = b.handshake.finish(&a.message).unwrap();

    let sealed = chan_a.seal(b"secret").unwrap();
    assert_eq!(chan_b.open(&sealed).unwrap(), b"secret");
}

#[test]
fn wrong_password_yields_unusable_channel() {
    let a = pake::start(b"1234");
    let b = pake::start(b"9999");
    // Both finish (SPAKE2 derives a key regardless)…
    let chan_a = a.handshake.finish(&b.message).unwrap();
    let chan_b = b.handshake.finish(&a.message).unwrap();
    // …but the keys differ, so the AEAD tag fails to authenticate.
    let sealed = chan_a.seal(b"secret").unwrap();
    assert!(chan_b.open(&sealed).is_err());
}

#[test]
fn malformed_peer_message_is_rejected() {
    let a = pake::start(b"pw");
    assert!(matches!(
        a.handshake.finish(b"not a valid spake message"),
        Err(CryptoError::PakeFailed)
    ));
}

#[test]
fn independent_runs_derive_distinct_channels() {
    // Same password, two independent sessions -> different transcripts ->
    // different keys (forward secrecy across sessions).
    let a1 = pake::start(b"pw");
    let b1 = pake::start(b"pw");
    let chan1 = a1.handshake.finish(&b1.message).unwrap();

    let a2 = pake::start(b"pw");
    let b2 = pake::start(b"pw");
    let chan2 = a2.handshake.finish(&b2.message).unwrap();

    let sealed = chan1.seal(b"x").unwrap();
    assert!(chan2.open(&sealed).is_err());
}

#[test]
fn a_password_exchange_carries_a_message() {
    assert_eq!(agree_between(b"pw", b"text").unwrap(), b"text");
}

#[test]
fn a_pake_message_is_a_marked_point() {
    let started = pake::start(b"pw");
    assert_eq!(started.message.len(), 33);
    assert_eq!(started.message[0], 0x53);
}

#[test]
fn pq_sign_and_verify() {
    let identity = PqIdentity::generate();
    let message = b"test challenge nonce";

    let signature = identity.sign(message);
    let vk = identity.verifying_key();

    assert!(PqIdentity::verify(&vk, message, &signature).is_ok());
}

#[test]
fn pq_reject_invalid_signature() {
    let identity_a = PqIdentity::generate();
    let identity_b = PqIdentity::generate();
    let message = b"test challenge nonce";

    let signature = identity_a.sign(message);
    let wrong_key = identity_b.verifying_key();

    assert!(matches!(
        PqIdentity::verify(&wrong_key, message, &signature),
        Err(CryptoError::InvalidPqSignature)
    ));
}

#[test]
fn pq_reject_tampered_message() {
    let identity = PqIdentity::generate();
    let message = b"original message";
    let tampered = b"tampered message";

    let signature = identity.sign(message);
    let vk = identity.verifying_key();

    assert!(matches!(
        PqIdentity::verify(&vk, tampered, &signature),
        Err(CryptoError::InvalidPqSignature)
    ));
}

#[test]
fn pq_deterministic_from_seed() {
    let seed = [42u8; 32];
    let id_a = PqIdentity::from_seed(&seed);
    let id_b = PqIdentity::from_seed(&seed);

    let msg = b"test";
    let sig_a = id_a.sign(msg);
    let vk_b = id_b.verifying_key();

    assert!(PqIdentity::verify(&vk_b, msg, &sig_a).is_ok());
}

#[test]
fn pq_kem_encapsulate_decapsulate() {
    let kp = PqKeyPair::generate();
    let ek = kp.encapsulation_key();

    let (ct, sender_secret) = encapsulate(&ek);
    let receiver_secret = kp.decapsulate(&ct);

    assert_eq!(sender_secret.as_bytes(), receiver_secret.as_bytes());
}

#[test]
fn different_keypairs_produce_different_secrets() {
    let kp_a = PqKeyPair::generate();
    let kp_b = PqKeyPair::generate();

    let ek_a = kp_a.encapsulation_key();
    let ek_b = kp_b.encapsulation_key();

    let (_ct_a, secret_a) = encapsulate(&ek_a);
    let (_ct_b, secret_b) = encapsulate(&ek_b);

    assert_ne!(secret_a.as_bytes(), secret_b.as_bytes());
}

#[test]
fn shared_secret_is_32_bytes() {
    let kp = PqKeyPair::generate();
    let ek = kp.encapsulation_key();
    let (_ct, secret) = encapsulate(&ek);
    assert_eq!(secret.as_bytes().len(), 32);
}

#[test]
fn a_kem_ciphertext_has_its_size() {
    assert!(PqCiphertext::from_bytes(vec![0u8; 1088]).is_some());
    assert!(PqCiphertext::from_bytes(vec![0u8; 1087]).is_none());
}

#[test]
fn seal_then_open_roundtrips() {
    let ch = channel();
    let msg = b"top secret screenshot bytes";
    let sealed = ch.seal(msg).unwrap();
    let opened = ch.open(&sealed).unwrap();
    assert_eq!(opened, msg);
}

#[test]
fn same_shared_secret_interoperates() {
    let shared = [42u8; 32];
    let a = SealedChannel::from_shared_secret(&shared);
    let b = SealedChannel::from_shared_secret(&shared);
    let sealed = a.seal(b"hello").unwrap();
    assert_eq!(b.open(&sealed).unwrap(), b"hello");
}

#[test]
fn different_secrets_cannot_open() {
    let a = SealedChannel::from_shared_secret(&[1u8; 32]);
    let b = SealedChannel::from_shared_secret(&[2u8; 32]);
    let sealed = a.seal(b"hello").unwrap();
    assert!(b.open(&sealed).is_err());
}

#[test]
fn nonce_is_unique_per_seal() {
    let ch = channel();
    let s1 = ch.seal(b"same").unwrap();
    let s2 = ch.seal(b"same").unwrap();
    // First 12 bytes are the nonce; they must differ.
    assert_ne!(s1[..NONCE_LEN], s2[..NONCE_LEN]);
    // And therefore the full ciphertexts differ too.
    assert_ne!(s1, s2);
}

#[test]
fn tampered_ciphertext_fails_auth() {
    let ch = channel();
    let mut sealed = ch.seal(b"integrity matters").unwrap();
    let last = sealed.len() - 1;
    sealed[last] ^= 0xff;
    assert!(ch.open(&sealed).is_err());
}

#[test]
fn truncated_message_rejected() {
    let ch = channel();
    assert!(ch.open(&[0u8; 4]).is_err());
}

#[test]
fn empty_plaintext_roundtrips() {
    let ch = channel();
    let sealed = ch.seal(b"").unwrap();
    assert_eq!(ch.open(&sealed).unwrap(), b"");
}

#[test]
fn opening_tells_its_faults() {
    let ch = channel();
    assert_eq!(
        ch.open(&[0u8; 4]).unwrap_err().to_string(),
        "decryption failed: sealed message too short"
    );
    assert_eq!(
        ch.open(&[0u8; 40]).unwrap_err().to_string(),
        "decryption failed: aead::Error"
    );
}

#[test]
fn a_sealed_message_is_longer_by_nonce_and_tag() {
    assert_eq!(channel().seal(b"abc").unwrap().len(), 12 + 3 + 16);
}

#[test]
fn key_exchange_produces_same_shared_secret() {
    let alice = SessionKeyPair::generate();
    let bob = SessionKeyPair::generate();

    let alice_public = *alice.public_key();
    let bob_public = *bob.public_key();

    let alice_shared = alice.derive_shared_secret(&bob_public);
    let bob_shared = bob.derive_shared_secret(&alice_public);

    assert_eq!(alice_shared.as_bytes(), bob_shared.as_bytes());
}

#[test]
fn different_pairs_produce_different_secrets() {
    let alice = SessionKeyPair::generate();
    let bob = SessionKeyPair::generate();
    let eve = SessionKeyPair::generate();

    let bob_public = *bob.public_key();
    let eve_public = *eve.public_key();

    let shared_ab = alice.derive_shared_secret(&bob_public);
    let shared_be = bob.derive_shared_secret(&eve_public);

    assert_ne!(shared_ab.as_bytes(), shared_be.as_bytes());
}

#[test]
fn crypto_errors_have_their_texts() {
    let texts = [
        (CryptoError::InvalidSignature, "invalid signature"),
        (CryptoError::NonceExpired, "nonce expired"),
        (CryptoError::NonceReused, "nonce already used"),
        (CryptoError::UntrustedKey, "untrusted public key"),
        (CryptoError::KeyGeneration("x".to_string()), "key generation failed: x"),
        (CryptoError::Encryption("x".to_string()), "encryption failed: x"),
        (CryptoError::Decryption("x".to_string()), "decryption failed: x"),
        (CryptoError::PqEncapsulation, "post-quantum key encapsulation failed"),
        (CryptoError::PqDecapsulation, "post-quantum decapsulation failed"),
        (CryptoError::HybridKeyDerivation, "hybrid key derivation failed"),
        (CryptoError::InvalidPqSignature, "invalid post-quantum signature"),
        (CryptoError::UnsupportedSuite("x".to_string()), "crypto suite not supported: x"),
        (CryptoError::PakeFailed, "password authentication failed"),
    ];
    for (error, text) in texts {
        assert_eq!(error.to_string(), text);
    }
}

#[test]
fn nonce_expires_by_its_age() {
    let before = Instant::now();
    let nonce = Nonce::generate();
    let after = Instant::now();
    assert!(nonce.validate_at(&before).is_ok());
    assert!(nonce.validate_at(&(before + Duration::from_secs(30))).is_ok());
    assert!(matches!(
        nonce.validate_at(&(after + Duration::from_millis(30_001))),
        Err(CryptoError::NonceExpired)
    ));
}

#[test]
fn consuming_prunes_expired_nonces() {
    let mut store = NonceStore::new(Duration::from_nanos(10));
    let old = store.issue_at(100);
    let fresh = store.issue_at(105);
    assert_eq!(store.pending(), 2);
    assert!(store.consume_at(fresh.as_bytes(), 115).is_ok());
    assert_eq!(store.pending(), 0);
    assert!(matches!(
        store.consume_at(old.as_bytes(), 115),
        Err(CryptoError::NonceReused)
    ));
}

#[test]
fn a_consumed_nonce_stays_consumed() {
    let mut store = NonceStore::new(Duration::from_nanos(10));
    let nonce = store.issue_at(100);
    let other = store.issue_at(101);
    assert_eq!(store.pending(), 2);
    assert!(store.consume_at(nonce.as_bytes(), 102).is_ok());
    assert_eq!(store.pending(), 1);
    let later = store.issue_at(103);
    assert_eq!(store.cleanup_at(104), 0);
    assert!(matches!(
        store.consume_at(nonce.as_bytes(), 105),
        Err(CryptoError::NonceReused)
    ));
    assert!(store.consume_at(later.as_bytes(), 106).is_ok());
    assert!(store.consume_at(other.as_bytes(), 111).is_ok());
    assert!(matches!(
        store.consume_at(nonce.as_bytes(), 111),
        Err(CryptoError::NonceReused)
    ));
    assert_eq!(store.pending(), 0);
}

#[test]
fn a_nonce_outlives_issues_and_cleanups() {
    let mut store = NonceStore::new(Duration::from_nanos(10));
    let nonce = store.issue_at(100);
    assert_eq!(store.cleanup_at(105), 0);
    let other = store.issue_at(106);
    assert!(store.consume_at(other.as_bytes(), 107).is_ok());
    assert_eq!(store.cleanup_at(110), 0);
    assert!(store.consume_at(nonce.as_bytes(), 110).is_ok());
    let nonce = store.issue_at(100);
    assert_eq!(store.cleanup_at(111), 1);
    assert!(matches!(
        store.consume_at(nonce.as_bytes(), 111),
        Err(CryptoError::NonceReused)
    ));
}

#[test]
fn a_nonce_lives_from_its_issue() {
    let mut store = NonceStore::new(Duration::from_nanos(10));
    let nonce = store.issue_at(100);
    assert!(store.consume_at(nonce.as_bytes(), 110).is_ok());
    let nonce = store.issue_at(100);
    assert!(matches!(
        store.consume_at(nonce.as_bytes(), 111),
        Err(CryptoError::NonceExpired)
    ));
    let early = store.issue_at(100);
    let late = store.issue_at(108);
    assert!(store.consume_at(late.as_bytes(), 109).is_ok());
    assert!(store.consume_at(early.as_bytes(), 110).is_ok());
}
