use sunny_core::config::Config;
use sunny_core::crypto::DefaultCryptoProvider;
use sunny_core::models::TokenRequest;
use sunny_core::token_json::serialize_token_request;
use sunny_core::Error;

fn card_request(ttl: Option<u64>) -> TokenRequest {
    TokenRequest {
        token_type: "card".to_owned(),
        data: vec![("pan".to_owned(), "4111111111111111".to_owned())],
        ttl,
        metadata: Vec::new(),
    }
}

#[test]
fn token_lifecycle_scenario() {
    let provider = DefaultCryptoProvider::new(&Config::default()).unwrap();
    let request = card_request(Some(60));

    let token = provider.create_token(&request).unwrap();
    assert_eq!(token.expires_at - token.created_at, 60);
    assert_eq!(token.token_type, "card");
    assert_eq!(token.id.len(), 16);
    assert!(token.id.chars().all(|c| c.is_ascii_alphanumeric()));

    let serialized = serialize_token_request(&request);
    assert!(provider.verify_token(&token.data, &serialized).unwrap());

    let mut chars: Vec<char> = token.data.chars().collect();
    chars[0] = if chars[0] == 'A' { 'B' } else { 'A' };
    let mutated: String = chars.into_iter().collect();
    assert!(!provider.verify_token(&mutated, &serialized).unwrap());
}

#[test]
fn token_default_ttl_is_one_hour() {
    let provider = DefaultCryptoProvider::new(&Config::default()).unwrap();
    let token = provider.create_token(&card_request(None)).unwrap();
    assert_eq!(token.expires_at - token.created_at, 3600);
}

#[test]
fn verify_token_rejects_wrong_payload() {
    let provider = DefaultCryptoProvider::new(&Config::default()).unwrap();
    let request = card_request(Some(60));
    let token = provider.create_token(&request).unwrap();
    assert!(!provider.verify_token(&token.data, b"some other bytes").unwrap());
}

#[test]
fn verify_token_rejects_undecodable_base64() {
    let provider = DefaultCryptoProvider::new(&Config::default()).unwrap();
    let err = provider.verify_token("@@@not-base64@@@", b"x").unwrap_err();
    assert!(matches!(err, Error::Crypto(_)));
}

#[test]
fn verify_token_short_envelope_is_false() {
    let provider = DefaultCryptoProvider::new(&Config::default()).unwrap();
    assert!(!provider.verify_token("AAAA", b"x").unwrap());
}

#[test]
fn serialization_is_byte_exact() {
    let request = TokenRequest {
        token_type: "card".to_owned(),
        data: vec![("pan".to_owned(), "4111111111111111".to_owned())],
        ttl: Some(60),
        metadata: vec![("a".to_owned(), "b".to_owned())],
    };
    let expected =
        "{\"token_type\":\"card\",\"data\":{\"pan\":\"4111111111111111\"},\"ttl\":60,\"metadata\":{\"a\":\"b\"}}";
    assert_eq!(serialize_token_request(&request), expected.as_bytes().to_vec());
}

#[test]
fn serialization_escapes_and_null_ttl() {
    let request = TokenRequest {
        token_type: "a\"b\\c\n".to_owned(),
        data: Vec::new(),
        ttl: None,
        metadata: Vec::new(),
    };
    let expected = "{\"token_type\":\"a\\\"b\\\\c\\u000a\",\"data\":{},\"ttl\":null,\"metadata\":{}}";
    assert_eq!(serialize_token_request(&request), expected.as_bytes().to_vec());
}

#[test]
fn serialization_joins_members_with_commas() {
    let request = TokenRequest {
        token_type: "t".to_owned(),
        data: vec![
            ("k1".to_owned(), "v1".to_owned()),
            ("k2".to_owned(), "v2".to_owned()),
        ],
        ttl: Some(18446744073709551615),
        metadata: Vec::new(),
    };
    let expected = "{\"token_type\":\"t\",\"data\":{\"k1\":\"v1\",\"k2\":\"v2\"},\"ttl\":18446744073709551615,\"metadata\":{}}";
    assert_eq!(serialize_token_request(&request), expected.as_bytes().to_vec());
}
