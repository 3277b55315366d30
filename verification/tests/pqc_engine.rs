use sunny_core::pqc::{PQCProvider, KEY_ROTATION_INTERVAL};
use sunny_core::wipe::wipe_bytes;
use sunny_core::Error;

#[test]
fn sign_and_verify_round_trip() {
    let provider = PQCProvider::new().unwrap();
    let signature = provider.sign(b"quantum resistant").unwrap();
    assert_eq!(signature.len(), 4627);
    assert!(provider.verify(b"quantum resistant", &signature).unwrap());
}

#[test]
fn verify_rejects_modified_message_and_signature() {
    let provider = PQCProvider::new().unwrap();
    let signature = provider.sign(b"original message").unwrap();
    assert!(!provider.verify(b"modified message", &signature).unwrap());

    let mut tampered = signature.clone();
    tampered[2000] ^= 0x01;
    assert!(!provider.verify(b"original message", &tampered).unwrap());
}

#[test]
fn verify_rejects_oversized_signature() {
    let provider = PQCProvider::new().unwrap();
    let err = provider.verify(b"m", &vec![0u8; 4628]).unwrap_err();
    assert!(matches!(err, Error::Crypto(_)));
}

#[test]
fn verify_enforces_timestamp_freshness() {
    let provider = PQCProvider::new_at(1000);
    let mut stale = vec![0u8; 64];
    stale[..8].copy_from_slice(&100u64.to_le_bytes());
    let err = provider.verify_at(b"m", &stale, 1_000_000).unwrap_err();
    assert!(matches!(err, Error::Crypto(_)));

    let mut fresh = vec![0u8; 64];
    fresh[..8].copy_from_slice(&999_900u64.to_le_bytes());
    assert!(!provider.verify_at(b"m", &fresh, 1_000_000).unwrap());
}

#[test]
fn rotation_gate_blocks_and_rotation_reopens() {
    let mut provider = PQCProvider::new_at(1000);
    let boundary = 1000 + KEY_ROTATION_INTERVAL;

    assert!(provider.sign_at(b"m", 1000).is_ok());
    assert!(provider.sign_at(b"m", boundary).is_ok());

    let late = boundary + 1;
    assert!(matches!(provider.sign_at(b"m", late).unwrap_err(), Error::Crypto(_)));
    assert!(matches!(provider.encapsulate_at(late).unwrap_err(), Error::Crypto(_)));
    assert!(matches!(
        provider.decapsulate_at(&[0u8; 1568], late).unwrap_err(),
        Error::Crypto(_)
    ));
    assert!(provider.needs_rotation_at(late));

    provider.rotate_keys_at(late);
    assert!(!provider.needs_rotation_at(late));
    assert!(provider.sign_at(b"m", late).is_ok());
    assert!(provider.encapsulate_at(late).is_ok());
}

#[test]
fn encapsulate_decapsulate_agree() {
    let provider = PQCProvider::new_at(50);
    let (ciphertext, shared_secret) = provider.encapsulate_at(50).unwrap();
    assert_eq!(ciphertext.len(), 1568);
    assert_eq!(shared_secret.len(), 32);
    let recovered = provider.decapsulate_at(&ciphertext, 50).unwrap();
    assert_eq!(recovered, shared_secret);
}

#[test]
fn decapsulate_rejects_malformed_ciphertext() {
    let provider = PQCProvider::new_at(50);
    let err = provider.decapsulate_at(&[0u8; 100], 50).unwrap_err();
    assert!(matches!(err, Error::Crypto(_)));
}

#[test]
fn rotation_changes_signing_keys() {
    let mut provider = PQCProvider::new_at(10);
    let (sign_before, kem_before) = provider.get_public_keys();
    provider.rotate_keys_at(20);
    let (sign_after, kem_after) = provider.get_public_keys();
    assert_ne!(sign_before, sign_after);
    assert_ne!(kem_before, kem_after);
    assert_eq!(sign_after.len(), 2592);
    assert_eq!(kem_after.len(), 1568);
}

#[test]
fn key_age_counts_from_creation() {
    let provider = PQCProvider::new_at(1000);
    assert_eq!(provider.get_key_age_at(1500), 500);
    assert_eq!(provider.get_key_age_at(900), 0);
}

#[test]
fn destroy_zeroizes_secret_material() {
    let mut provider = PQCProvider::new_at(10);
    assert!(!provider.secrets_zeroed());
    provider.destroy();
    assert!(provider.secrets_zeroed());
}

#[test]
fn wipe_overwrites_every_byte() {
    let mut buf = vec![0xAAu8; 97];
    wipe_bytes(&mut buf);
    assert_eq!(buf.len(), 97);
    assert!(buf.iter().all(|b| *b == 0));
}
