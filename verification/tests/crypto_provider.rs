use sunny_core::config::Config;
use sunny_core::crypto::{create_provider, DefaultCryptoProvider};
use sunny_core::Error;

use base64::Engine;

#[test]
fn test_encrypt_decrypt() {
    let config = Config::default();
    let provider = DefaultCryptoProvider::new(&config).unwrap();

    let data = b"sensitive payment data";
    let encrypted = provider.encrypt(data).unwrap();
    let decrypted = provider.decrypt(&encrypted).unwrap();

    assert_eq!(data.to_vec(), decrypted);
}

#[test]
fn test_sign_verify() {
    let config = Config::default();
    let provider = DefaultCryptoProvider::new(&config).unwrap();

    let data = b"data to sign";
    let signature = provider.sign(data).unwrap();
    let valid = provider.verify_signature(data, &signature).unwrap();

    assert!(valid);
}

#[test]
fn encrypt_is_not_deterministic() {
    let provider = DefaultCryptoProvider::new(&Config::default()).unwrap();
    let data = b"same plaintext";
    let one = provider.encrypt(data).unwrap();
    let two = provider.encrypt(data).unwrap();
    assert_ne!(one, two);
    assert_eq!(provider.decrypt(&one).unwrap(), data.to_vec());
    assert_eq!(provider.decrypt(&two).unwrap(), data.to_vec());
}

#[test]
fn encrypt_output_layout() {
    let provider = DefaultCryptoProvider::new(&Config::default()).unwrap();
    let data = b"layout";
    let blob = provider.encrypt(data).unwrap();
    assert_eq!(blob.len(), 12 + data.len() + 16);
}

#[test]
fn decrypt_rejects_short_blob() {
    let provider = DefaultCryptoProvider::new(&Config::default()).unwrap();
    let err = provider.decrypt(&[0u8; 11]).unwrap_err();
    assert!(matches!(err, Error::Crypto(_)));
}

#[test]
fn decrypt_rejects_every_single_byte_flip() {
    let provider = DefaultCryptoProvider::new(&Config::default()).unwrap();
    let data = b"tamper detection";
    let blob = provider.encrypt(data).unwrap();
    for i in 12..blob.len() {
        let mut tampered = blob.clone();
        tampered[i] ^= 0x01;
        assert!(
            provider.decrypt(&tampered).is_err(),
            "flip of ciphertext byte {} was not rejected",
            i
        );
    }
}

#[test]
fn verify_signature_wrong_length_is_false() {
    let provider = DefaultCryptoProvider::new(&Config::default()).unwrap();
    let data = b"payload";
    assert!(!provider.verify_signature(data, &[0u8; 63]).unwrap());
    assert!(!provider.verify_signature(data, &[0u8; 65]).unwrap());
    assert!(!provider.verify_signature(data, &[]).unwrap());
}

#[test]
fn verify_signature_rejects_every_single_byte_flip() {
    let provider = DefaultCryptoProvider::new(&Config::default()).unwrap();
    let data = b"signed payload";
    let signature = provider.sign(data).unwrap();
    for i in 0..signature.len() {
        let mut tampered = signature.clone();
        tampered[i] ^= 0x01;
        assert!(
            !provider.verify_signature(data, &tampered).unwrap(),
            "flip of signature byte {} still verified",
            i
        );
    }
}

#[test]
fn verify_signature_rejects_other_message() {
    let provider = DefaultCryptoProvider::new(&Config::default()).unwrap();
    let signature = provider.sign(b"original").unwrap();
    assert!(!provider.verify_signature(b"altered", &signature).unwrap());
}

#[test]
fn generate_random_string_alphabet_and_length() {
    let provider = DefaultCryptoProvider::new(&Config::default()).unwrap();
    let s = provider.generate_random_string(64);
    assert_eq!(s.len(), 64);
    assert!(s.chars().all(|c| c.is_ascii_alphanumeric()));
    assert_eq!(provider.generate_random_string(0).len(), 0);
}

#[test]
fn create_provider_selects_by_configuration() {
    let config = Config::default();
    assert!(create_provider(&config).is_ok());

    let mut hsm_config = Config::default();
    hsm_config.crypto_provider = "hsm".to_owned();
    assert!(matches!(
        create_provider(&hsm_config).unwrap_err(),
        Error::Configuration(_)
    ));

    let mut unknown = Config::default();
    unknown.crypto_provider = "bogus".to_owned();
    assert!(matches!(
        create_provider(&unknown).unwrap_err(),
        Error::Configuration(_)
    ));
}

#[test]
fn new_rejects_malformed_encryption_key() {
    let mut config = Config::default();
    config.encryption_key = Some("!!!not base64!!!".to_owned());
    assert!(matches!(
        DefaultCryptoProvider::new(&config).unwrap_err(),
        Error::Crypto(_)
    ));

    let mut short = Config::default();
    short.encryption_key = Some(base64::engine::general_purpose::STANDARD.encode([7u8; 31]));
    assert!(matches!(
        DefaultCryptoProvider::new(&short).unwrap_err(),
        Error::Crypto(_)
    ));
}

#[test]
fn providers_sharing_a_key_decrypt_each_other() {
    let key = [42u8; 32];
    let encoded = base64::engine::general_purpose::STANDARD.encode(key);
    let mut config_a = Config::default();
    config_a.encryption_key = Some(encoded.clone());
    let mut config_b = Config::default();
    config_b.encryption_key = Some(encoded);

    let a = DefaultCryptoProvider::new(&config_a).unwrap();
    let b = DefaultCryptoProvider::new(&config_b).unwrap();
    let blob = a.encrypt(b"shared key material").unwrap();
    assert_eq!(b.decrypt(&blob).unwrap(), b"shared key material".to_vec());
}

#[test]
fn new_accepts_configured_signing_keys() {
    let sk = ed25519_dalek::SigningKey::from_bytes(&[9u8; 32]);
    let pk = sk.verifying_key();
    let mut config = Config::default();
    config.signing_private_key =
        Some(base64::engine::general_purpose::STANDARD.encode(sk.to_bytes()));
    config.signing_public_key =
        Some(base64::engine::general_purpose::STANDARD.encode(pk.to_bytes()));

    let provider = DefaultCryptoProvider::new(&config).unwrap();
    let signature = provider.sign(b"configured keys").unwrap();
    assert!(provider.verify_signature(b"configured keys", &signature).unwrap());
}

#[test]
fn new_rejects_malformed_signing_keys() {
    let mut config = Config::default();
    config.signing_private_key =
        Some(base64::engine::general_purpose::STANDARD.encode([1u8; 31]));
    config.signing_public_key =
        Some(base64::engine::general_purpose::STANDARD.encode([2u8; 32]));
    assert!(matches!(
        DefaultCryptoProvider::new(&config).unwrap_err(),
        Error::Crypto(_)
    ));
}
