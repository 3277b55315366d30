//! The secure-operations provider: authenticated encryption, signing,
//! verification and tokenization over a local key set.
//!
//! Every ciphertext envelope is a fresh random 12-byte nonce immediately
//! followed by ciphertext and authentication tag. Decryption rejects any
//! envelope shorter than the nonce as malformed and returns no partial
//! result on authentication failure.

use vstd::prelude::*;

use crate::config::Config;
use crate::error::Error;
use crate::models::{Token, TokenRequest};
use crate::primitives::{
    aes_gcm_open, aes_gcm_open_exec, aes_gcm_seal, aes_gcm_seal_exec, b64_decode, b64_decode_exec,
    b64_encode_exec, current_unix_time, ed_generate, ed_pub_check, ed_pub_decodable, ed_public_of,
    ed_sign, ed_sign_exec, ed_verify, ed_verify_exec, fill_random, random_u32, str_eq, to_array_32,
    MAX_PLAINTEXT_LEN, NONCE_LEN,
};
use crate::token_json::{serialize_token_request, spec_serialize_token_request};

verus! {

/// Default time-to-live of a token, in seconds.
pub const DEFAULT_TOKEN_TTL: u64 = 3600;

/// True when `blob` is a well-formed envelope for `msg` under `key`: a
/// 12-byte nonce followed by the seal of `msg` under that key and nonce,
/// which authenticates back to `msg`.
pub open spec fn is_encryption_of(key: Seq<u8>, blob: Seq<u8>, msg: Seq<u8>) -> bool {
    &&& blob.len() == msg.len() + 28
    &&& blob.subrange(12, blob.len() as int) == aes_gcm_seal(key, blob.subrange(0, 12), msg)
    &&& aes_gcm_open(key, blob.subrange(0, 12), blob.subrange(12, blob.len() as int)) == Some(msg)
}

/// What decrypting `blob` under `key` yields: `None` for an envelope
/// shorter than a nonce or an envelope that fails authentication.
pub open spec fn decrypts_to(key: Seq<u8>, blob: Seq<u8>) -> Option<Seq<u8>> {
    if blob.len() < 12 {
        None
    } else {
        aes_gcm_open(key, blob.subrange(0, 12), blob.subrange(12, blob.len() as int))
    }
}

/// Round trip: decrypting any well-formed envelope for `msg` yields exactly
/// `msg`, whatever nonce the envelope carries. Together with the contracts
/// of [`DefaultCryptoProvider::encrypt`] and
/// [`DefaultCryptoProvider::decrypt`], every plaintext survives an
/// encrypt/decrypt round trip unchanged.
pub proof fn lemma_encrypt_decrypt_round_trip(key: Seq<u8>, blob: Seq<u8>, msg: Seq<u8>)
    requires
        is_encryption_of(key, blob, msg),
    ensures
        decrypts_to(key, blob) == Some(msg),
{
}

/// True when `data` is the base64 encoding of a well-formed envelope for
/// `payload` under `key`.
pub open spec fn is_token_data(key: Seq<u8>, data: Seq<char>, payload: Seq<u8>) -> bool {
    &&& b64_decode(data) is Some
    &&& is_encryption_of(key, b64_decode(data)->0, payload)
}

/// What verifying token data against an expected payload yields.
pub open spec fn spec_verify_token(key: Seq<u8>, tok: Seq<char>, expected: Seq<u8>) -> bool {
    &&& b64_decode(tok) is Some
    &&& decrypts_to(key, b64_decode(tok)->0) == Some(expected)
}

/// Token round trip: token data freshly produced for a payload verifies
/// against exactly that payload.
pub proof fn lemma_token_round_trip(key: Seq<u8>, data: Seq<char>, payload: Seq<u8>)
    requires
        is_token_data(key, data, payload),
    ensures
        spec_verify_token(key, data, payload),
{
    lemma_encrypt_decrypt_round_trip(key, b64_decode(data)->0, payload);
}

/// True for the characters of the 62-letter alphanumeric alphabet
/// `[A-Za-z0-9]`.
pub open spec fn is_alphanumeric_char(c: char) -> bool {
    ||| 65 <= c as u32 <= 90
    ||| 97 <= c as u32 <= 122
    ||| 48 <= c as u32 <= 57
}

/// The time-to-live a token request asks for, with the default applied.
pub open spec fn token_ttl(req: TokenRequest) -> u64 {
    match req.ttl {
        Option::Some(t) => t,
        Option::None => DEFAULT_TOKEN_TTL,
    }
}

/// True when the optional encryption key of a configuration is absent or
/// decodes to exactly 32 bytes.
pub open spec fn enc_key_acceptable(c: Config) -> bool {
    match c.encryption_key {
        Option::Some(k) => b64_decode(k@) matches Some(b) && b.len() == 32,
        Option::None => true,
    }
}

/// True when the optional signing keypair of a configuration is incomplete
/// or decodes to a 32-byte secret and a 32-byte decodable public key.
pub open spec fn signing_keys_acceptable(c: Config) -> bool {
    match (c.signing_public_key, c.signing_private_key) {
        (Option::Some(pk), Option::Some(sk)) => {
            &&& b64_decode(pk@) is Some
            &&& b64_decode(sk@) is Some
            &&& b64_decode(sk@)->0.len() == 32
            &&& b64_decode(pk@)->0.len() == 32
            &&& ed_pub_decodable(b64_decode(pk@)->0)
        },
        _ => true,
    }
}

/// True when the optional HMAC key of a configuration is absent or decodes.
pub open spec fn hmac_key_acceptable(c: Config) -> bool {
    match c.hmac_key {
        Option::Some(k) => b64_decode(k@) is Some,
        Option::None => true,
    }
}

/// Seal `msg` under `key` with a fresh random nonce, prepending the nonce.
pub(crate) fn seal_blob(key: &[u8; 32], msg: &[u8]) -> (r: Result<Vec<u8>, Error>)
    ensures
        r is Ok <==> msg@.len() <= MAX_PLAINTEXT_LEN,
        r is Ok ==> is_encryption_of(key@, r->Ok_0@, msg@),
        r is Err ==> r->Err_0 is Crypto,
{
    if msg.len() > MAX_PLAINTEXT_LEN {
        return Err(Error::Crypto("Encryption failed: plaintext too long".to_owned()));
    }
    let mut result = fill_random(NONCE_LEN);
    let ghost nonce = result@;
    let mut ct = aes_gcm_seal_exec(key.as_slice(), result.as_slice(), msg);
    result.append(&mut ct);
    proof {
        assert(result@.subrange(0, 12) =~= nonce);
        assert(result@.subrange(12, result@.len() as int) =~= aes_gcm_seal(key@, nonce, msg@));
    }
    Ok(result)
}

/// Open an envelope under `key`, rejecting short and inauthentic input.
pub(crate) fn open_blob(key: &[u8; 32], blob: &[u8]) -> (r: Result<Vec<u8>, Error>)
    ensures
        r is Ok <==> decrypts_to(key@, blob@) is Some,
        r is Ok ==> decrypts_to(key@, blob@) == Some(r->Ok_0@),
        r is Err ==> r->Err_0 is Crypto,
{
    if blob.len() < NONCE_LEN {
        return Err(Error::Crypto("Invalid encrypted data".to_owned()));
    }
    let nonce = vstd::slice::slice_subrange(blob, 0, NONCE_LEN);
    let ct = vstd::slice::slice_subrange(blob, NONCE_LEN, blob.len());
    match aes_gcm_open_exec(key.as_slice(), nonce, ct) {
        Option::Some(pt) => Ok(pt),
        Option::None => Err(Error::Crypto("Decryption failed".to_owned())),
    }
}

/// Append a whole slice to a byte vector.
pub(crate) fn extend_bytes(out: &mut Vec<u8>, s: &[u8])
    ensures
        final(out)@ == old(out)@ + s@,
{
    let n = s.len();
    let mut i: usize = 0;
    while i < n
        invariant
            n == s@.len(),
            i <= n,
            out@ == old(out)@ + s@.subrange(0, i as int),
        decreases n - i,
    {
        out.push(s[i]);
        i = i + 1;
        proof {
            assert(s@.subrange(0, i as int) == s@.subrange(0, i - 1).push(s@[i - 1]));
        }
    }
    proof {
        assert(s@.subrange(0, n as int) == s@);
    }
}

/// Byte-for-byte comparison of two slices.
pub(crate) fn bytes_eq(a: &[u8], b: &[u8]) -> (r: bool)
    ensures
        r == (a@ == b@),
{
    if a.len() != b.len() {
        return false;
    }
    let n = a.len();
    let mut i: usize = 0;
    while i < n
        invariant
            n == a@.len(),
            n == b@.len(),
            i <= n,
            forall|j: int| 0 <= j < i ==> a@[j] == b@[j],
        decreases n - i,
    {
        if a[i] != b[i] {
            return false;
        }
        i = i + 1;
    }
    proof {
        assert(a@ =~= b@);
    }
    true
}

/// Uniform operations surface over a local key set.
pub trait CryptoProvider {
    /// Encrypt sensitive data into a nonce-prefixed envelope.
    fn encrypt(&self, data: &[u8]) -> Result<Vec<u8>, Error>;

    /// Decrypt a nonce-prefixed envelope.
    fn decrypt(&self, encrypted_data: &[u8]) -> Result<Vec<u8>, Error>;

    /// Create a token for payment data.
    fn create_token(&self, token_request: &TokenRequest) -> Result<Token, Error>;

    /// Verify that token data decrypts to an expected payload.
    fn verify_token(&self, token: &str, token_data: &[u8]) -> Result<bool, Error>;

    /// Sign data.
    fn sign(&self, data: &[u8]) -> Result<Vec<u8>, Error>;

    /// Verify a signature.
    fn verify_signature(&self, data: &[u8], signature: &[u8]) -> Result<bool, Error>;

    /// Generate a secure random alphanumeric string.
    fn generate_random_string(&self, length: usize) -> String;
}

/// Create a cryptographic provider based on configuration.
pub fn create_provider(config: &Config) -> (r: Result<DefaultCryptoProvider, Error>)
    ensures
        config.crypto_provider@ == "default"@ ==> DefaultCryptoProvider::spec_new_result(
            r,
            *config,
        ),
        config.crypto_provider@ != "default"@ ==> r is Err && r->Err_0 is Configuration,
{
    if str_eq(config.crypto_provider.as_str(), "default") {
        DefaultCryptoProvider::new(config)
    } else if str_eq(config.crypto_provider.as_str(), "hsm") {
        Err(Error::Configuration("HSM support not enabled".to_owned()))
    } else {
        let mut m = String::new();
        m.append("Unknown crypto provider: ");
        m.append(config.crypto_provider.as_str());
        Err(Error::Configuration(m))
    }
}

/// Default implementation of the [`CryptoProvider`] surface, holding an
/// AES-256 encryption key, an Ed25519 signing keypair and an HMAC key.
#[derive(Debug)]
pub struct DefaultCryptoProvider {
    encryption_key: [u8; 32],
    signing_secret: [u8; 32],
    signing_public: [u8; 32],
    hmac_key: Vec<u8>,
}

impl DefaultCryptoProvider {
    /// The AES-256 key, at the specification level.
    pub closed spec fn key_bytes(&self) -> Seq<u8> {
        self.encryption_key@
    }

    /// The Ed25519 secret key, at the specification level.
    pub closed spec fn signing_secret_bytes(&self) -> Seq<u8> {
        self.signing_secret@
    }

    /// The Ed25519 public key, at the specification level.
    pub closed spec fn signing_public_bytes(&self) -> Seq<u8> {
        self.signing_public@
    }

    /// True when the signing keypair is internally consistent: the public
    /// half is derived from the secret half and decodes to a valid key.
    /// Holds whenever the keypair was generated rather than imported.
    pub open spec fn signing_keys_consistent(&self) -> bool {
        &&& self.signing_public_bytes() == ed_public_of(self.signing_secret_bytes())
        &&& ed_pub_decodable(self.signing_public_bytes())
    }

    /// What a construction attempt from `c` must look like: the relation
    /// every `new(c)` result satisfies.
    pub open spec fn spec_new_result(r: Result<DefaultCryptoProvider, Error>, c: Config) -> bool {
        &&& r is Ok <==> enc_key_acceptable(c) && signing_keys_acceptable(c) && hmac_key_acceptable(
            c,
        )
        &&& r is Err ==> r->Err_0 is Crypto
        &&& (r is Ok ==> match c.encryption_key {
            Option::Some(k) => r->Ok_0.key_bytes() == b64_decode(k@)->0,
            Option::None => true,
        })
        &&& (r is Ok ==> match (c.signing_public_key, c.signing_private_key) {
            (Option::Some(pk), Option::Some(sk)) => r->Ok_0.signing_public_bytes() == b64_decode(
                pk@,
            )->0 && r->Ok_0.signing_secret_bytes() == b64_decode(sk@)->0,
            _ => r->Ok_0.signing_keys_consistent(),
        })
    }

    /// Create a provider from configuration, decoding configured key
    /// material and generating whatever is absent.
    pub fn new(config: &Config) -> (r: Result<Self, Error>)
        ensures
            Self::spec_new_result(r, *config),
    {
        let encryption_key: [u8; 32] = match &config.encryption_key {
            Option::Some(k) => {
                match b64_decode_exec(k.as_str()) {
                    Option::Some(b) => {
                        if b.len() != 32 {
                            return Err(
                                Error::Crypto("Encryption key must be 32 bytes".to_owned()),
                            );
                        }
                        to_array_32(b.as_slice())
                    },
                    Option::None => {
                        return Err(Error::Crypto("Failed to decode encryption key".to_owned()));
                    },
                }
            },
            Option::None => {
                let b = fill_random(32);
                to_array_32(b.as_slice())
            },
        };
        let (signing_secret, signing_public): ([u8; 32], [u8; 32]) = if config.signing_public_key.is_some()
            && config.signing_private_key.is_some() {
            let pk_s = config.signing_public_key.as_ref().unwrap();
            let sk_s = config.signing_private_key.as_ref().unwrap();
            let pk_b = match b64_decode_exec(pk_s.as_str()) {
                Option::Some(b) => b,
                Option::None => {
                    return Err(Error::Crypto("Failed to decode public key".to_owned()));
                },
            };
            let sk_b = match b64_decode_exec(sk_s.as_str()) {
                Option::Some(b) => b,
                Option::None => {
                    return Err(Error::Crypto("Failed to decode private key".to_owned()));
                },
            };
            if sk_b.len() != 32 {
                return Err(Error::Crypto("Invalid private key".to_owned()));
            }
            if pk_b.len() != 32 {
                return Err(Error::Crypto("Invalid public key".to_owned()));
            }
            if !ed_pub_check(pk_b.as_slice()) {
                return Err(Error::Crypto("Invalid public key".to_owned()));
            }
            (to_array_32(sk_b.as_slice()), to_array_32(pk_b.as_slice()))
        } else {
            let (sk, pk) = ed_generate();
            (to_array_32(sk.as_slice()), to_array_32(pk.as_slice()))
        };
        let hmac_key: Vec<u8> = match &config.hmac_key {
            Option::Some(k) => {
                match b64_decode_exec(k.as_str()) {
                    Option::Some(b) => b,
                    Option::None => {
                        return Err(Error::Crypto("Failed to decode HMAC key".to_owned()));
                    },
                }
            },
            Option::None => fill_random(32),
        };
        Ok(
            DefaultCryptoProvider {
                encryption_key,
                signing_secret,
                signing_public,
                hmac_key,
            },
        )
    }

    /// Encrypt `data` under the provider's symmetric key with a fresh
    /// random nonce; the nonce is prepended to the ciphertext.
    pub fn encrypt(&self, data: &[u8]) -> (r: Result<Vec<u8>, Error>)
        ensures
            r is Ok <==> data@.len() <= MAX_PLAINTEXT_LEN,
            r is Ok ==> is_encryption_of(self.key_bytes(), r->Ok_0@, data@),
            r is Err ==> r->Err_0 is Crypto,
    {
        seal_blob(&self.encryption_key, data)
    }

    /// Decrypt a nonce-prefixed envelope; fails on envelopes shorter than
    /// the nonce and on authentication failure, never returning a partial
    /// result.
    pub fn decrypt(&self, encrypted_data: &[u8]) -> (r: Result<Vec<u8>, Error>)
        ensures
            r is Ok <==> decrypts_to(self.key_bytes(), encrypted_data@) is Some,
            r is Ok ==> decrypts_to(self.key_bytes(), encrypted_data@) == Some(r->Ok_0@),
            r is Err ==> r->Err_0 is Crypto,
    {
        open_blob(&self.encryption_key, encrypted_data)
    }

    /// Sign `data` with the provider's Ed25519 secret key. When the
    /// keypair is consistent, the signature verifies under the public key:
    /// with the contract of [`Self::verify_signature`], every signature
    /// produced here passes verification, and only 64-byte signatures do.
    pub fn sign(&self, data: &[u8]) -> (r: Result<Vec<u8>, Error>)
        ensures
            r is Ok,
            r->Ok_0@ == ed_sign(self.signing_secret_bytes(), data@),
            r->Ok_0@.len() == 64,
            self.signing_keys_consistent() ==> ed_verify(
                self.signing_public_bytes(),
                data@,
                r->Ok_0@,
            ),
    {
        let sig = ed_sign_exec(&self.signing_secret, data);
        Ok(sig)
    }

    /// Verify a signature over `data`: false for any signature that is not
    /// exactly 64 bytes or does not verify, never an error.
    pub fn verify_signature(&self, data: &[u8], signature: &[u8]) -> (r: Result<bool, Error>)
        ensures
            r is Ok,
            r->Ok_0 == (signature@.len() == 64 && ed_pub_decodable(self.signing_public_bytes())
                && ed_verify(self.signing_public_bytes(), data@, signature@)),
    {
        if signature.len() != 64 {
            return Ok(false);
        }
        Ok(ed_verify_exec(&self.signing_public, data, signature))
    }

    /// Create a token at an explicit time: serialize the request, encrypt
    /// the serialization, base64-encode the envelope, and attach a random
    /// 16-character alphanumeric identifier and a TTL-derived expiry.
    pub fn create_token_at(&self, token_request: &TokenRequest, now: u64) -> (r: Result<
        Token,
        Error,
    >)
        ensures
            r is Ok <==> spec_serialize_token_request(*token_request).len() <= MAX_PLAINTEXT_LEN
                && now + token_ttl(*token_request) <= u64::MAX,
            r is Err ==> r->Err_0 is Crypto,
            r is Ok ==> {
                let t = r->Ok_0;
                &&& t.created_at == now
                &&& t.expires_at == now + token_ttl(*token_request)
                &&& t.token_type@ == token_request.token_type@
                &&& t.id@.len() == 16
                &&& forall|i: int| 0 <= i < 16 ==> is_alphanumeric_char(#[trigger] t.id@[i])
                &&& is_token_data(
                    self.key_bytes(),
                    t.data@,
                    spec_serialize_token_request(*token_request),
                )
            },
    {
        let token_data = serialize_token_request(token_request);
        let encrypted_data = match self.encrypt(token_data.as_slice()) {
            Ok(b) => b,
            Err(e) => {
                return Err(e);
            },
        };
        let encoded_data = b64_encode_exec(encrypted_data.as_slice());
        let token_id = self.generate_random_string(16);
        let ttl = match &token_request.ttl {
            Option::Some(t) => *t,
            Option::None => DEFAULT_TOKEN_TTL,
        };
        let expiration = match now.checked_add(ttl) {
            Option::Some(e) => e,
            Option::None => {
                return Err(Error::Crypto("Failed to calculate token expiration".to_owned()));
            },
        };
        Ok(
            Token {
                id: token_id,
                data: encoded_data,
                expires_at: expiration,
                token_type: token_request.token_type.clone(),
                created_at: now,
            },
        )
    }

    /// Create a token at the current wall-clock time.
    pub fn create_token(&self, token_request: &TokenRequest) -> (r: Result<Token, Error>)
        ensures
            r is Err ==> r->Err_0 is Crypto,
            spec_serialize_token_request(*token_request).len() > MAX_PLAINTEXT_LEN ==> r is Err,
            r is Ok ==> {
                let t = r->Ok_0;
                &&& t.expires_at == t.created_at + token_ttl(*token_request)
                &&& t.token_type@ == token_request.token_type@
                &&& t.id@.len() == 16
                &&& forall|i: int| 0 <= i < 16 ==> is_alphanumeric_char(#[trigger] t.id@[i])
                &&& is_token_data(
                    self.key_bytes(),
                    t.data@,
                    spec_serialize_token_request(*token_request),
                )
            },
    {
        let now = current_unix_time();
        self.create_token_at(token_request, now)
    }

    /// Verify token data against an expected payload: decode and decrypt,
    /// then compare byte for byte. Undecodable base64 is an error; a short
    /// or inauthentic envelope and a payload mismatch are `false`. No
    /// expiry or persistence check happens here.
    pub fn verify_token(&self, token: &str, token_data: &[u8]) -> (r: Result<bool, Error>)
        ensures
            r is Err <==> b64_decode(token@) is None,
            r is Err ==> r->Err_0 is Crypto,
            r is Ok ==> r->Ok_0 == spec_verify_token(self.key_bytes(), token@, token_data@),
    {
        let token_bytes = match b64_decode_exec(token) {
            Option::Some(b) => b,
            Option::None => {
                return Err(Error::Crypto("Failed to decode token".to_owned()));
            },
        };
        if token_bytes.len() < NONCE_LEN {
            return Ok(false);
        }
        match self.decrypt(token_bytes.as_slice()) {
            Ok(decrypted) => Ok(bytes_eq(decrypted.as_slice(), token_data)),
            Err(_) => Ok(false),
        }
    }

    /// Generate a random string over the alphabet `[A-Za-z0-9]`, sampling
    /// each position from the operating system's secure source.
    pub fn generate_random_string(&self, length: usize) -> (r: String)
        ensures
            r@.len() == length,
            forall|i: int| 0 <= i < length ==> is_alphanumeric_char(#[trigger] r@[i]),
    {
        let mut bytes: Vec<u8> = Vec::new();
        let mut i: usize = 0;
        while i < length
            invariant
                bytes@.len() == i,
                i <= length,
                forall|j: int|
                    0 <= j < i ==> #[trigger] bytes@[j] < 128 && is_alphanumeric_char(
                        bytes@[j] as char,
                    ),
            decreases length - i,
        {
            let idx = (random_u32() % 62) as u8;
            let b: u8 = if idx < 26 {
                65 + idx
            } else if idx < 52 {
                97 + (idx - 26)
            } else {
                48 + (idx - 52)
            };
            bytes.push(b);
            i = i + 1;
        }
        let r = ascii_to_string_checked(bytes);
        proof {
            assert forall|k: int| 0 <= k < length implies is_alphanumeric_char(
                #[trigger] r@[k],
            ) by {
                assert(bytes@[k] < 128);
                assert(r@[k] == bytes@[k] as char);
            }
        }
        r
    }
}

/// Convert alphanumeric ASCII bytes to a string of the same characters.
fn ascii_to_string_checked(bytes: Vec<u8>) -> (r: String)
    requires
        forall|i: int| 0 <= i < bytes@.len() ==> #[trigger] bytes@[i] < 128,
    ensures
        r@.len() == bytes@.len(),
        forall|i: int| 0 <= i < bytes@.len() ==> r@[i] == #[trigger] (bytes@[i] as char),
{
    crate::primitives::ascii_to_string(bytes)
}

impl CryptoProvider for DefaultCryptoProvider {
    fn encrypt(&self, data: &[u8]) -> Result<Vec<u8>, Error> {
        DefaultCryptoProvider::encrypt(self, data)
    }

    fn decrypt(&self, encrypted_data: &[u8]) -> Result<Vec<u8>, Error> {
        DefaultCryptoProvider::decrypt(self, encrypted_data)
    }

    fn create_token(&self, token_request: &TokenRequest) -> Result<Token, Error> {
        DefaultCryptoProvider::create_token(self, token_request)
    }

    fn verify_token(&self, token: &str, token_data: &[u8]) -> Result<bool, Error> {
        DefaultCryptoProvider::verify_token(self, token, token_data)
    }

    fn sign(&self, data: &[u8]) -> Result<Vec<u8>, Error> {
        DefaultCryptoProvider::sign(self, data)
    }

    fn verify_signature(&self, data: &[u8], signature: &[u8]) -> Result<bool, Error> {
        DefaultCryptoProvider::verify_signature(self, data, signature)
    }

    fn generate_random_string(&self, length: usize) -> String {
        DefaultCryptoProvider::generate_random_string(self, length)
    }
}

} // verus!
