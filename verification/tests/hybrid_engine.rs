use sunny_core::hybrid::HybridCrypto;
use sunny_core::pqc::KEY_ROTATION_INTERVAL;
use sunny_core::Error;

#[test]
fn public_keys_have_algorithm_lengths() {
    let engine = HybridCrypto::new().unwrap();
    let (classic, signing, kem) = engine.get_public_keys();
    assert_eq!(classic.len(), 32);
    assert_eq!(signing.len(), 2592);
    assert_eq!(kem.len(), 1568);
}

#[test]
fn key_exchange_produces_session_key() {
    let engine = HybridCrypto::new().unwrap();
    let peer = HybridCrypto::new().unwrap();
    let (peer_classic, _peer_signing, peer_kem) = peer.get_public_keys();

    let secret = engine.hybrid_key_exchange(&peer_classic, &peer_kem).unwrap();
    assert_eq!(secret.len(), 32);
}

#[test]
fn key_exchange_rejects_malformed_peer_keys() {
    let engine = HybridCrypto::new().unwrap();
    let peer = HybridCrypto::new().unwrap();
    let (peer_classic, _s, peer_kem) = peer.get_public_keys();

    assert!(matches!(
        engine.hybrid_key_exchange(&peer_classic[..31], &peer_kem).unwrap_err(),
        Error::Crypto(_)
    ));
    assert!(matches!(
        engine.hybrid_key_exchange(&peer_classic, &peer_kem[..100]).unwrap_err(),
        Error::Crypto(_)
    ));
}

#[test]
fn key_exchange_is_rotation_gated() {
    let mut engine = HybridCrypto::new_at(0);
    let peer = HybridCrypto::new_at(0);
    let (peer_classic, _s, peer_kem) = peer.get_public_keys();
    let late = KEY_ROTATION_INTERVAL + 1;

    assert!(matches!(
        engine.hybrid_key_exchange_at(&peer_classic, &peer_kem, late).unwrap_err(),
        Error::Crypto(_)
    ));

    engine.rotate_keys_at(late);
    assert!(engine.hybrid_key_exchange_at(&peer_classic, &peer_kem, late).is_ok());
}

#[test]
fn hybrid_encrypt_decrypt_round_trip() {
    let engine = HybridCrypto::new().unwrap();
    let shared = [5u8; 32];
    let blob = engine.hybrid_encrypt(b"session payload", &shared).unwrap();
    assert_eq!(blob.len(), 12 + 15 + 16);
    let plain = engine.hybrid_decrypt(&blob, &shared).unwrap();
    assert_eq!(plain, b"session payload".to_vec());
}

#[test]
fn hybrid_decrypt_rejects_tampering_and_wrong_secret() {
    let engine = HybridCrypto::new().unwrap();
    let shared = [5u8; 32];
    let blob = engine.hybrid_encrypt(b"protected", &shared).unwrap();

    for i in 12..blob.len() {
        let mut tampered = blob.clone();
        tampered[i] ^= 0x01;
        assert!(engine.hybrid_decrypt(&tampered, &shared).is_err());
    }

    let other = [6u8; 32];
    assert!(engine.hybrid_decrypt(&blob, &other).is_err());
    assert!(engine.hybrid_decrypt(&blob[..11], &shared).is_err());
}

#[test]
fn hybrid_envelopes_are_not_deterministic() {
    let engine = HybridCrypto::new().unwrap();
    let shared = [7u8; 32];
    let one = engine.hybrid_encrypt(b"same message", &shared).unwrap();
    let two = engine.hybrid_encrypt(b"same message", &shared).unwrap();
    assert_ne!(one, two);
}

#[test]
fn rotation_replaces_classical_key() {
    let mut engine = HybridCrypto::new_at(10);
    let (classic_before, _s, _k) = engine.get_public_keys();
    engine.rotate_keys_at(20);
    let (classic_after, _s2, _k2) = engine.get_public_keys();
    assert_ne!(classic_before, classic_after);
}

#[test]
fn destroy_zeroizes_both_halves() {
    let mut engine = HybridCrypto::new_at(10);
    assert!(!engine.secrets_zeroed());
    engine.destroy();
    assert!(engine.secrets_zeroed());
}
