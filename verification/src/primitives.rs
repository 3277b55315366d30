//! Trusted shims over the cryptographic primitives of outside crates.
//!
//! Every function here is `external_body`: Verus believes its contract and
//! does not read its body. Each contract states only what the outside crate's
//! source or documentation shows. Results that no short formula can state —
//! a ciphertext, a digest, a signature — are given uninterpreted names, and
//! the verified code above reasons purely in terms of those names.

use vstd::prelude::*;

use crate::error::Error;
use aes_gcm::aead::{Aead, KeyInit};
use base64::Engine;
use ed25519_dalek::{Signer, Verifier};
use pqcrypto_traits::kem::{
    Ciphertext as KemCiphertext, PublicKey as KemPublicKey, SecretKey as KemSecretKey,
    SharedSecret as KemSharedSecret,
};
use pqcrypto_traits::sign::{
    DetachedSignature as SignDetachedSignature, PublicKey as SignPublicKey,
    SecretKey as SignSecretKey,
};
use rand::RngCore;

verus! {

/// Longest plaintext the authenticated ciphers are asked to seal. Both
/// AES-256-GCM and ChaCha20-Poly1305 accept messages far longer than this
/// (2^36 bytes and more), so sealing a message within this bound cannot fail.
pub const MAX_PLAINTEXT_LEN: usize = 0xFFFF_FFFF;

/// Bytes of authentication tag appended by both AEAD ciphers.
pub const AEAD_TAG_LEN: usize = 16;

/// Bytes of nonce prepended to every ciphertext envelope.
pub const NONCE_LEN: usize = 12;

/// Dilithium5 public key length in bytes.
pub const DIL_PUBLIC_LEN: usize = 2592;

/// Dilithium5 secret key length in bytes.
pub const DIL_SECRET_LEN: usize = 4896;

/// Dilithium5 detached signature length in bytes.
pub const DIL_SIG_LEN: usize = 4627;

/// Kyber1024 public key length in bytes.
pub const KYBER_PUBLIC_LEN: usize = 1568;

/// Kyber1024 secret key length in bytes.
pub const KYBER_SECRET_LEN: usize = 3168;

/// Kyber1024 ciphertext length in bytes.
pub const KYBER_CT_LEN: usize = 1568;

/// Kyber1024 shared secret length in bytes.
pub const KYBER_SS_LEN: usize = 32;

// ---------------------------------------------------------------------------
// AES-256-GCM
// ---------------------------------------------------------------------------

/// The ciphertext-with-tag that AES-256-GCM produces for a key, nonce and
/// message; a function of those arguments alone.
pub uninterp spec fn aes_gcm_seal(key: Seq<u8>, nonce: Seq<u8>, msg: Seq<u8>) -> Seq<u8>;

/// What AES-256-GCM decryption yields for a key, nonce and ciphertext:
/// `Some` plaintext when the tag authenticates, `None` otherwise.
pub uninterp spec fn aes_gcm_open(key: Seq<u8>, nonce: Seq<u8>, ct: Seq<u8>) -> Option<Seq<u8>>;

/// Relies on `aes_gcm::Aes256Gcm` (`Aead::encrypt`): sealing appends a
/// 16-byte tag, never fails for messages within `MAX_PLAINTEXT_LEN`, and
/// decryption of the sealed text under the same key and nonce returns the
/// message.
#[verifier::external_body]
pub(crate) fn aes_gcm_seal_exec(key: &[u8], nonce: &[u8], msg: &[u8]) -> (r: Vec<u8>)
    requires
        key@.len() == 32,
        nonce@.len() == NONCE_LEN,
        msg@.len() <= MAX_PLAINTEXT_LEN,
    ensures
        r@ == aes_gcm_seal(key@, nonce@, msg@),
        r@.len() == msg@.len() + AEAD_TAG_LEN,
        aes_gcm_open(key@, nonce@, r@) == Some(msg@),
{
    let cipher = aes_gcm::Aes256Gcm::new(aes_gcm::Key::<aes_gcm::Aes256Gcm>::from_slice(key));
    cipher.encrypt(aes_gcm::Nonce::from_slice(nonce), msg).unwrap()
}

/// Relies on `aes_gcm::Aes256Gcm` (`Aead::decrypt`): returns the plaintext
/// exactly when the tag authenticates under this key and nonce.
#[verifier::external_body]
pub(crate) fn aes_gcm_open_exec(key: &[u8], nonce: &[u8], ct: &[u8]) -> (r: Option<Vec<u8>>)
    requires
        key@.len() == 32,
        nonce@.len() == NONCE_LEN,
    ensures
        r is Some <==> aes_gcm_open(key@, nonce@, ct@) is Some,
        r is Some ==> aes_gcm_open(key@, nonce@, ct@) == Some(r->0@),
{
    let cipher = aes_gcm::Aes256Gcm::new(aes_gcm::Key::<aes_gcm::Aes256Gcm>::from_slice(key));
    cipher.decrypt(aes_gcm::Nonce::from_slice(nonce), ct).ok()
}

// ---------------------------------------------------------------------------
// ChaCha20-Poly1305
// ---------------------------------------------------------------------------

/// The ciphertext-with-tag that ChaCha20-Poly1305 produces for a key, nonce
/// and message; a function of those arguments alone.
pub uninterp spec fn chacha_seal(key: Seq<u8>, nonce: Seq<u8>, msg: Seq<u8>) -> Seq<u8>;

/// What ChaCha20-Poly1305 decryption yields for a key, nonce and ciphertext.
pub uninterp spec fn chacha_open(key: Seq<u8>, nonce: Seq<u8>, ct: Seq<u8>) -> Option<Seq<u8>>;

/// Relies on `chacha20poly1305::ChaCha20Poly1305` (`Aead::encrypt`): same
/// shape of guarantee as the AES-GCM seal.
#[verifier::external_body]
pub(crate) fn chacha_seal_exec(key: &[u8], nonce: &[u8], msg: &[u8]) -> (r: Vec<u8>)
    requires
        key@.len() == 32,
        nonce@.len() == NONCE_LEN,
        msg@.len() <= MAX_PLAINTEXT_LEN,
    ensures
        r@ == chacha_seal(key@, nonce@, msg@),
        r@.len() == msg@.len() + AEAD_TAG_LEN,
        chacha_open(key@, nonce@, r@) == Some(msg@),
{
    let cipher = chacha20poly1305::ChaCha20Poly1305::new(
        chacha20poly1305::Key::from_slice(key),
    );
    cipher.encrypt(chacha20poly1305::Nonce::from_slice(nonce), msg).unwrap()
}

/// Relies on `chacha20poly1305::ChaCha20Poly1305` (`Aead::decrypt`): returns
/// the plaintext exactly when the tag authenticates.
#[verifier::external_body]
pub(crate) fn chacha_open_exec(key: &[u8], nonce: &[u8], ct: &[u8]) -> (r: Option<Vec<u8>>)
    requires
        key@.len() == 32,
        nonce@.len() == NONCE_LEN,
    ensures
        r is Some <==> chacha_open(key@, nonce@, ct@) is Some,
        r is Some ==> chacha_open(key@, nonce@, ct@) == Some(r->0@),
{
    let cipher = chacha20poly1305::ChaCha20Poly1305::new(
        chacha20poly1305::Key::from_slice(key),
    );
    cipher.decrypt(chacha20poly1305::Nonce::from_slice(nonce), ct).ok()
}

// ---------------------------------------------------------------------------
// Ed25519
// ---------------------------------------------------------------------------

/// The Ed25519 signature of a message under a 32-byte secret key; Ed25519
/// signing is deterministic, so this is a function of its arguments alone.
pub uninterp spec fn ed_sign(secret: Seq<u8>, msg: Seq<u8>) -> Seq<u8>;

/// Whether an Ed25519 signature verifies under a public key.
pub uninterp spec fn ed_verify(publick: Seq<u8>, msg: Seq<u8>, sig: Seq<u8>) -> bool;

/// The Ed25519 public key derived from a 32-byte secret key.
pub uninterp spec fn ed_public_of(secret: Seq<u8>) -> Seq<u8>;

/// Whether 32 bytes decode to a valid Ed25519 public key (a valid compressed
/// curve point).
pub uninterp spec fn ed_pub_decodable(publick: Seq<u8>) -> bool;

/// Relies on `ed25519_dalek::SigningKey::generate` and `verifying_key`: a
/// fresh keypair whose public half is derived from the secret half and
/// decodes back to a valid key.
#[verifier::external_body]
pub(crate) fn ed_generate() -> (r: (Vec<u8>, Vec<u8>))
    ensures
        r.0@.len() == 32,
        r.1@.len() == 32,
        r.1@ == ed_public_of(r.0@),
        ed_pub_decodable(r.1@),
{
    let sk = ed25519_dalek::SigningKey::generate(&mut rand::rngs::OsRng);
    (sk.to_bytes().to_vec(), sk.verifying_key().to_bytes().to_vec())
}

/// Relies on `ed25519_dalek::SigningKey::verifying_key`: derives the public
/// half of a secret key.
#[verifier::external_body]
pub(crate) fn ed_public_of_exec(secret: &[u8]) -> (r: Vec<u8>)
    requires
        secret@.len() == 32,
    ensures
        r@ == ed_public_of(secret@),
        r@.len() == 32,
        ed_pub_decodable(r@),
{
    let sk = ed25519_dalek::SigningKey::from_bytes(secret.try_into().unwrap());
    sk.verifying_key().to_bytes().to_vec()
}

/// Relies on `ed25519_dalek::SigningKey::sign` (RFC 8032): signatures are 64
/// bytes, deterministic, and verify under the matching public key.
#[verifier::external_body]
pub(crate) fn ed_sign_exec(secret: &[u8], msg: &[u8]) -> (r: Vec<u8>)
    requires
        secret@.len() == 32,
    ensures
        r@ == ed_sign(secret@, msg@),
        r@.len() == 64,
        ed_verify(ed_public_of(secret@), msg@, r@),
{
    let sk = ed25519_dalek::SigningKey::from_bytes(secret.try_into().unwrap());
    sk.sign(msg).to_bytes().to_vec()
}

/// Relies on `ed25519_dalek::VerifyingKey::{from_bytes, verify}`: true
/// exactly when the bytes decode to a valid public key and the signature
/// verifies under it.
#[verifier::external_body]
pub(crate) fn ed_verify_exec(publick: &[u8], msg: &[u8], sig: &[u8]) -> (r: bool)
    requires
        publick@.len() == 32,
        sig@.len() == 64,
    ensures
        r == (ed_pub_decodable(publick@) && ed_verify(publick@, msg@, sig@)),
{
    match ed25519_dalek::VerifyingKey::from_bytes(publick.try_into().unwrap()) {
        Ok(vk) => {
            let s = ed25519_dalek::Signature::from_bytes(sig.try_into().unwrap());
            vk.verify(msg, &s).is_ok()
        },
        Err(_) => false,
    }
}

/// Relies on `ed25519_dalek::VerifyingKey::from_bytes`: reports whether 32
/// bytes decode to a valid public key.
#[verifier::external_body]
pub(crate) fn ed_pub_check(publick: &[u8]) -> (r: bool)
    requires
        publick@.len() == 32,
    ensures
        r == ed_pub_decodable(publick@),
{
    ed25519_dalek::VerifyingKey::from_bytes(publick.try_into().unwrap()).is_ok()
}

// ---------------------------------------------------------------------------
// X25519
// ---------------------------------------------------------------------------

/// The X25519 public key derived from a 32-byte secret.
pub uninterp spec fn x25519_public_of(secret: Seq<u8>) -> Seq<u8>;

/// The X25519 shared secret of a secret key and a peer public key; a
/// function of its arguments alone.
pub uninterp spec fn x25519_shared(secret: Seq<u8>, peer: Seq<u8>) -> Seq<u8>;

/// Relies on `x25519_dalek::StaticSecret::random_from_rng` and
/// `PublicKey::from`: a fresh keypair with the public half derived from the
/// secret half.
#[verifier::external_body]
pub(crate) fn x25519_generate() -> (r: (Vec<u8>, Vec<u8>))
    ensures
        r.0@.len() == 32,
        r.1@.len() == 32,
        r.1@ == x25519_public_of(r.0@),
{
    let sk = x25519_dalek::StaticSecret::random_from_rng(rand::rngs::OsRng);
    let pk = x25519_dalek::PublicKey::from(&sk);
    (sk.to_bytes().to_vec(), pk.to_bytes().to_vec())
}

/// Relies on `x25519_dalek::StaticSecret::diffie_hellman`: a 32-byte shared
/// secret determined by the two inputs.
#[verifier::external_body]
pub(crate) fn x25519_shared_exec(secret: &[u8], peer: &[u8]) -> (r: Vec<u8>)
    requires
        secret@.len() == 32,
        peer@.len() == 32,
    ensures
        r@ == x25519_shared(secret@, peer@),
        r@.len() == 32,
{
    let sk = x25519_dalek::StaticSecret::from(<[u8; 32]>::try_from(secret).unwrap());
    let pk = x25519_dalek::PublicKey::from(<[u8; 32]>::try_from(peer).unwrap());
    sk.diffie_hellman(&pk).as_bytes().to_vec()
}

// ---------------------------------------------------------------------------
// Dilithium5 (post-quantum signatures)
// ---------------------------------------------------------------------------

/// Whether a Dilithium5 public key and secret key form a keypair as returned
/// by key generation.
pub uninterp spec fn dil_keypair_related(publick: Seq<u8>, secret: Seq<u8>) -> bool;

/// The Dilithium5 detached signature of a message under a secret key; the
/// PQClean implementation signs deterministically.
pub uninterp spec fn dil_sign(secret: Seq<u8>, msg: Seq<u8>) -> Seq<u8>;

/// Whether a Dilithium5 detached signature verifies under a public key.
pub uninterp spec fn dil_verify(publick: Seq<u8>, msg: Seq<u8>, sig: Seq<u8>) -> bool;

/// Relies on `pqcrypto_dilithium::dilithium5::keypair`: a fresh related
/// keypair of the documented lengths.
#[verifier::external_body]
pub(crate) fn dil_generate() -> (r: (Vec<u8>, Vec<u8>))
    ensures
        r.0@.len() == DIL_PUBLIC_LEN,
        r.1@.len() == DIL_SECRET_LEN,
        dil_keypair_related(r.0@, r.1@),
{
    let (pk, sk) = pqcrypto_dilithium::dilithium5::keypair();
    (pk.as_bytes().to_vec(), sk.as_bytes().to_vec())
}

/// Relies on `pqcrypto_dilithium::dilithium5::detached_sign`: a signature of
/// the fixed length that verifies under the related public key.
#[verifier::external_body]
pub(crate) fn dil_sign_exec(secret: &[u8], msg: &[u8]) -> (r: Vec<u8>)
    requires
        secret@.len() == DIL_SECRET_LEN,
    ensures
        r@ == dil_sign(secret@, msg@),
        r@.len() == DIL_SIG_LEN,
        forall|pk: Seq<u8>|
            dil_keypair_related(pk, secret@) ==> dil_verify(pk, msg@, r@),
{
    let sk = SignSecretKey::from_bytes(secret).unwrap();
    let sig = pqcrypto_dilithium::dilithium5::detached_sign(msg, &sk);
    SignDetachedSignature::as_bytes(&sig).to_vec()
}

/// Relies on `pqcrypto_dilithium::dilithium5::verify_detached_signature` and
/// `DetachedSignature::from_bytes`, which accepts at most the fixed
/// signature length.
#[verifier::external_body]
pub(crate) fn dil_verify_exec(publick: &[u8], msg: &[u8], sig: &[u8]) -> (r: bool)
    requires
        publick@.len() == DIL_PUBLIC_LEN,
    ensures
        r == (sig@.len() <= DIL_SIG_LEN && dil_verify(publick@, msg@, sig@)),
{
    let pk = SignPublicKey::from_bytes(publick).unwrap();
    match <pqcrypto_dilithium::dilithium5::DetachedSignature as SignDetachedSignature>::from_bytes(sig) {
        Ok(s) => pqcrypto_dilithium::dilithium5::verify_detached_signature(&s, msg, &pk).is_ok(),
        Err(_) => false,
    }
}

// ---------------------------------------------------------------------------
// Kyber1024 (post-quantum key encapsulation)
// ---------------------------------------------------------------------------

/// Whether a Kyber1024 public key and secret key form a keypair as returned
/// by key generation.
pub uninterp spec fn kyber_keypair_related(publick: Seq<u8>, secret: Seq<u8>) -> bool;

/// The shared secret Kyber1024 decapsulation yields for a secret key and
/// ciphertext; decapsulation is deterministic.
pub uninterp spec fn kyber_decap(secret: Seq<u8>, ct: Seq<u8>) -> Seq<u8>;

/// Relies on `pqcrypto_kyber::kyber1024::keypair`: a fresh related keypair
/// of the documented lengths.
#[verifier::external_body]
pub(crate) fn kyber_generate() -> (r: (Vec<u8>, Vec<u8>))
    ensures
        r.0@.len() == KYBER_PUBLIC_LEN,
        r.1@.len() == KYBER_SECRET_LEN,
        kyber_keypair_related(r.0@, r.1@),
{
    let (pk, sk) = pqcrypto_kyber::kyber1024::keypair();
    (pk.as_bytes().to_vec(), sk.as_bytes().to_vec())
}

/// Relies on `pqcrypto_kyber::kyber1024::encapsulate`: a fresh (shared
/// secret, ciphertext) pair such that decapsulation with the related secret
/// key recovers the shared secret. The pair is randomized, so nothing more
/// is promised of its value.
#[verifier::external_body]
pub(crate) fn kyber_encap_exec(publick: &[u8]) -> (r: (Vec<u8>, Vec<u8>))
    requires
        publick@.len() == KYBER_PUBLIC_LEN,
    ensures
        r.0@.len() == KYBER_SS_LEN,
        r.1@.len() == KYBER_CT_LEN,
        forall|sk: Seq<u8>|
            kyber_keypair_related(publick@, sk) ==> kyber_decap(sk, r.1@) == r.0@,
{
    let pk = KemPublicKey::from_bytes(publick).unwrap();
    let (ss, ct) = pqcrypto_kyber::kyber1024::encapsulate(&pk);
    (ss.as_bytes().to_vec(), ct.as_bytes().to_vec())
}

/// Relies on `pqcrypto_kyber::kyber1024::decapsulate`: a 32-byte shared
/// secret determined by the secret key and ciphertext.
#[verifier::external_body]
pub(crate) fn kyber_decap_exec(secret: &[u8], ct: &[u8]) -> (r: Vec<u8>)
    requires
        secret@.len() == KYBER_SECRET_LEN,
        ct@.len() == KYBER_CT_LEN,
    ensures
        r@ == kyber_decap(secret@, ct@),
        r@.len() == KYBER_SS_LEN,
{
    let sk = KemSecretKey::from_bytes(secret).unwrap();
    let c = KemCiphertext::from_bytes(ct).unwrap();
    pqcrypto_kyber::kyber1024::decapsulate(&c, &sk).as_bytes().to_vec()
}

// ---------------------------------------------------------------------------
// Digests
// ---------------------------------------------------------------------------

/// The BLAKE3 digest of a byte sequence.
pub uninterp spec fn blake3_digest(data: Seq<u8>) -> Seq<u8>;

/// Relies on `blake3::Hasher`: hashing `a` then `b` digests their
/// concatenation into 32 bytes.
#[verifier::external_body]
pub(crate) fn blake3_digest_exec(a: &[u8], b: &[u8]) -> (r: Vec<u8>)
    ensures
        r@ == blake3_digest(a@ + b@),
        r@.len() == 32,
{
    let mut h = blake3::Hasher::new();
    h.update(a);
    h.update(b);
    h.finalize().as_bytes().to_vec()
}

/// The SHA-256 digest of a byte sequence.
pub uninterp spec fn sha256_digest(data: Seq<u8>) -> Seq<u8>;

/// Relies on `sha2::Sha256`: hashing `a` then `b` digests their
/// concatenation into 32 bytes.
#[verifier::external_body]
pub(crate) fn sha256_digest_exec(a: &[u8], b: &[u8]) -> (r: Vec<u8>)
    ensures
        r@ == sha256_digest(a@ + b@),
        r@.len() == 32,
{
    let mut h = <sha2::Sha256 as sha2::Digest>::new();
    sha2::Digest::update(&mut h, a);
    sha2::Digest::update(&mut h, b);
    sha2::Digest::finalize(h).to_vec()
}

// ---------------------------------------------------------------------------
// Base64
// ---------------------------------------------------------------------------

/// The standard base64 encoding of a byte sequence, as characters.
pub uninterp spec fn b64_encode(bytes: Seq<u8>) -> Seq<char>;

/// What standard base64 decoding yields: `Some` bytes for a well-formed
/// encoding, `None` otherwise.
pub uninterp spec fn b64_decode(s: Seq<char>) -> Option<Seq<u8>>;

/// Relies on `base64::engine::general_purpose::STANDARD` (`Engine::encode`):
/// encoding is deterministic and decodes back to the input.
#[verifier::external_body]
pub(crate) fn b64_encode_exec(bytes: &[u8]) -> (r: String)
    ensures
        r@ == b64_encode(bytes@),
        b64_decode(r@) == Some(bytes@),
{
    base64::engine::general_purpose::STANDARD.encode(bytes)
}

/// Relies on `base64::engine::general_purpose::STANDARD` (`Engine::decode`):
/// decoding succeeds exactly on well-formed encodings.
#[verifier::external_body]
pub(crate) fn b64_decode_exec(s: &str) -> (r: Option<Vec<u8>>)
    ensures
        r is Some <==> b64_decode(s@) is Some,
        r is Some ==> b64_decode(s@) == Some(r->0@),
{
    base64::engine::general_purpose::STANDARD.decode(s).ok()
}

// ---------------------------------------------------------------------------
// Randomness, identifiers, time
// ---------------------------------------------------------------------------

/// Relies on `rand::rngs::OsRng` (`RngCore::fill_bytes`): a buffer of the
/// requested length filled from the operating system's secure source.
/// Nothing is promised of its contents.
#[verifier::external_body]
pub(crate) fn fill_random(len: usize) -> (r: Vec<u8>)
    ensures
        r@.len() == len,
{
    let mut buf = vec![0u8; len];
    rand::rngs::OsRng.fill_bytes(&mut buf);
    buf
}

/// Relies on `rand::rngs::OsRng` (`RngCore::next_u32`): a random word, of
/// which nothing is promised.
#[verifier::external_body]
pub(crate) fn random_u32() -> u32 {
    rand::rngs::OsRng.next_u32()
}

/// Relies on `uuid::Uuid::new_v4` and its hyphenated `Display` form of 36
/// characters: a fresh `key-`-prefixed identifier of 40 characters.
#[verifier::external_body]
pub(crate) fn new_key_id() -> (r: String)
    ensures
        r@.len() == 40,
{
    format!("key-{}", uuid::Uuid::new_v4())
}

/// Relies on `std::time::SystemTime::now`: seconds since the Unix epoch, or
/// zero for a clock before the epoch. Nothing is promised of the value.
#[verifier::external_body]
pub(crate) fn current_unix_time() -> u64 {
    match std::time::SystemTime::now().duration_since(std::time::UNIX_EPOCH) {
        Ok(d) => d.as_secs(),
        Err(_) => 0,
    }
}

// ---------------------------------------------------------------------------
// Small std conversions vstd does not specify
// ---------------------------------------------------------------------------

/// Relies on `str` equality in std: true exactly when the two views are the
/// same character sequence.
#[verifier::external_body]
pub(crate) fn str_eq(a: &str, b: &str) -> (r: bool)
    ensures
        r == (a@ == b@),
{
    a == b
}

/// Relies on `TryFrom<&[u8]>` for `[u8; 32]` in std: copies a 32-byte slice
/// into an array of the same bytes.
#[verifier::external_body]
pub(crate) fn to_array_32(v: &[u8]) -> (r: [u8; 32])
    requires
        v@.len() == 32,
    ensures
        r@ == v@,
{
    v.try_into().unwrap()
}

/// Relies on `String::from_utf8`: ASCII bytes are valid UTF-8 and decode to
/// the characters with the same code points.
#[verifier::external_body]
pub(crate) fn ascii_to_string(bytes: Vec<u8>) -> (r: String)
    requires
        forall|i: int| 0 <= i < bytes@.len() ==> bytes@[i] < 128,
    ensures
        r@.len() == bytes@.len(),
        forall|i: int| 0 <= i < bytes@.len() ==> r@[i] == bytes@[i] as char,
{
    String::from_utf8(bytes).unwrap_or_default()
}

} // verus!
