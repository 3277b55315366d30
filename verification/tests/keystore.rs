use sunny_core::config::Config;
use sunny_core::hsm::KeyType;
use sunny_core::hsm_software::SoftwareHsmService;
use sunny_core::Error;

fn store() -> SoftwareHsmService {
    SoftwareHsmService::new(&Config::default()).unwrap()
}

#[test]
fn import_validation_symmetric() {
    let mut s = store();
    let err = s.import_key(KeyType::Aes256, &[7u8; 31]).unwrap_err();
    assert!(matches!(err, Error::Crypto(_)));

    let id = s.import_key(KeyType::Aes256, &[7u8; 32]).unwrap();
    let blob = s.encrypt(&id, b"round trip after import").unwrap();
    assert_eq!(s.decrypt(&id, &blob).unwrap(), b"round trip after import".to_vec());
}

#[test]
fn imported_keys_with_same_material_interoperate() {
    let mut s = store();
    let id1 = s.import_key(KeyType::Aes256, &[42u8; 32]).unwrap();
    let id2 = s.import_key(KeyType::Aes256, &[42u8; 32]).unwrap();
    assert_ne!(id1, id2);
    let blob = s.encrypt(&id1, b"cross key").unwrap();
    assert_eq!(s.decrypt(&id2, &blob).unwrap(), b"cross key".to_vec());
}

#[test]
fn generated_symmetric_key_round_trips() {
    let mut s = store();
    let id = s.generate_key(KeyType::Aes256).unwrap();
    assert!(id.starts_with("key-"));
    assert_eq!(id.len(), 40);
    let blob = s.encrypt(&id, b"generated").unwrap();
    assert_eq!(s.decrypt(&id, &blob).unwrap(), b"generated".to_vec());
}

#[test]
fn store_decrypt_rejects_tampering_and_short_input() {
    let mut s = store();
    let id = s.generate_key(KeyType::Aes256).unwrap();
    let blob = s.encrypt(&id, b"payload").unwrap();
    let mut tampered = blob.clone();
    tampered[13] ^= 0xFF;
    assert!(s.decrypt(&id, &tampered).is_err());
    assert!(s.decrypt(&id, &blob[..11]).is_err());
}

#[test]
fn missing_and_mistyped_keys_are_errors() {
    let mut s = store();
    assert!(matches!(s.encrypt("nope", b"x").unwrap_err(), Error::Crypto(_)));
    let ed = s.generate_key(KeyType::Ed25519).unwrap();
    assert!(matches!(s.encrypt(&ed, b"x").unwrap_err(), Error::Crypto(_)));
    let aes = s.generate_key(KeyType::Aes256).unwrap();
    assert!(matches!(s.sign(&aes, b"x").unwrap_err(), Error::Crypto(_)));
}

#[test]
fn generated_signing_key_round_trips() {
    let mut s = store();
    let id = s.generate_key(KeyType::Ed25519).unwrap();
    let signature = s.sign(&id, b"store signed").unwrap();
    assert_eq!(signature.len(), 64);
    assert!(s.verify(&id, b"store signed", &signature).unwrap());
    assert!(!s.verify(&id, b"other data", &signature).unwrap());
}

#[test]
fn verify_wrong_length_is_false_before_lookup() {
    let s = store();
    assert!(!s.verify("missing", b"x", &[0u8; 63]).unwrap());
}

#[test]
fn imported_signing_key_round_trips() {
    let sk = ed25519_dalek::SigningKey::from_bytes(&[9u8; 32]);
    let mut material = sk.to_bytes().to_vec();
    material.extend_from_slice(&sk.verifying_key().to_bytes());

    let mut s = store();
    let id = s.import_key(KeyType::Ed25519, &material).unwrap();
    let signature = s.sign(&id, b"imported").unwrap();
    assert!(s.verify(&id, b"imported", &signature).unwrap());

    let err = s.import_key(KeyType::Ed25519, &material[..63]).unwrap_err();
    assert!(matches!(err, Error::Crypto(_)));
}

#[test]
fn import_rejects_invalid_signing_public_half() {
    let mut invalid_public = None;
    for hi in 0..=255u8 {
        let mut candidate = [255u8; 32];
        candidate[31] = hi;
        if ed25519_dalek::VerifyingKey::from_bytes(&candidate).is_err() {
            invalid_public = Some(candidate);
            break;
        }
    }
    let invalid_public = invalid_public.expect("an undecodable public key exists");
    let mut material = [3u8; 32].to_vec();
    material.extend_from_slice(&invalid_public);

    let mut s = store();
    let err = s.import_key(KeyType::Ed25519, &material).unwrap_err();
    assert!(matches!(err, Error::Crypto(_)));
}

#[test]
fn public_keys_by_entry_kind() {
    let mut s = store();
    let aes = s.generate_key(KeyType::Aes256).unwrap();
    assert!(matches!(s.get_public_key(&aes).unwrap_err(), Error::Crypto(_)));
    let ed = s.generate_key(KeyType::Ed25519).unwrap();
    assert_eq!(s.get_public_key(&ed).unwrap().len(), 32);
    let rsa = s.generate_key(KeyType::Rsa2048).unwrap();
    assert_eq!(s.get_public_key(&rsa).unwrap().len(), 64);
    assert!(matches!(s.get_public_key("missing").unwrap_err(), Error::Crypto(_)));
}

#[test]
fn derivation_is_deterministic_per_context() {
    let mut s = store();
    let base = s.import_key(KeyType::Aes256, &[1u8; 32]).unwrap();
    let d1 = s.derive_key(&base, b"context").unwrap();
    let d2 = s.derive_key(&base, b"context").unwrap();
    let blob = s.encrypt(&d1, b"derived twins").unwrap();
    assert_eq!(s.decrypt(&d2, &blob).unwrap(), b"derived twins".to_vec());

    let other = s.derive_key(&base, b"another context").unwrap();
    let blob2 = s.encrypt(&other, b"x").unwrap();
    assert!(s.decrypt(&d1, &blob2).is_err());

    let ed = s.generate_key(KeyType::Ed25519).unwrap();
    assert!(matches!(s.derive_key(&ed, b"ctx").unwrap_err(), Error::Crypto(_)));
}

#[test]
fn wrap_and_unwrap_round_trip() {
    let mut s = store();
    let key = s.import_key(KeyType::Aes256, &[8u8; 32]).unwrap();
    let wrapping = s.generate_key(KeyType::Aes256).unwrap();

    let wrapped = s.wrap_key(&key, &wrapping).unwrap();
    let unwrapped = s.unwrap_key(&wrapped, &wrapping, KeyType::Aes256).unwrap();

    let blob = s.encrypt(&key, b"wrapped journey").unwrap();
    assert_eq!(s.decrypt(&unwrapped, &blob).unwrap(), b"wrapped journey".to_vec());
}

#[test]
fn wrap_requires_symmetric_wrapping_key() {
    let mut s = store();
    let key = s.generate_key(KeyType::Aes256).unwrap();
    let ed = s.generate_key(KeyType::Ed25519).unwrap();
    assert!(matches!(s.wrap_key(&key, &ed).unwrap_err(), Error::Crypto(_)));
    assert!(matches!(s.wrap_key("missing", &key).unwrap_err(), Error::Crypto(_)));
}

#[test]
fn unwrap_rejects_tampered_wrapped_key() {
    let mut s = store();
    let key = s.generate_key(KeyType::Aes256).unwrap();
    let wrapping = s.generate_key(KeyType::Aes256).unwrap();
    let mut wrapped = s.wrap_key(&key, &wrapping).unwrap();
    wrapped[20] ^= 0x55;
    assert!(s.unwrap_key(&wrapped, &wrapping, KeyType::Aes256).is_err());
}
