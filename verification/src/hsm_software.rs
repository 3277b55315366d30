//! Software key-material store: an in-process custody backend for
//! development and testing, never for production.
//!
//! The store owns every key entry outright and hands out only opaque
//! identifiers. A newer entry for an identifier shadows any older one, so a
//! lookup always observes the most recent insertion.

use vstd::prelude::*;

use crate::config::Config;
use crate::crypto::{decrypts_to, extend_bytes, is_encryption_of, open_blob, seal_blob};
use crate::error::Error;
use crate::hsm::{HsmService, KeyType};
use crate::primitives::{
    ed_generate, ed_pub_check, ed_pub_decodable, ed_public_of, ed_sign, ed_sign_exec, ed_verify,
    ed_verify_exec, fill_random, new_key_id, sha256_digest, sha256_digest_exec, to_array_32,
    MAX_PLAINTEXT_LEN, NONCE_LEN,
};
use crate::wipe::all_zero;

verus! {

/// A key entry owned by the store.
#[derive(Debug)]
pub enum KeyEntry {
    /// AES-256 symmetric key.
    Aes256([u8; 32]),
    /// Ed25519 key pair.
    Ed25519 { secret: [u8; 32], public: [u8; 32] },
    /// RSA-class key pair held as opaque bytes (mock custody for vendor
    /// key classes the software backend does not implement).
    Rsa { private_key: Vec<u8>, public_key: Vec<u8> },
}

/// The serialized form of an entry used by key wrapping: the symmetric key
/// bytes, the signing secret followed by its public half, or the private
/// RSA-class bytes.
pub open spec fn entry_serialized(e: KeyEntry) -> Seq<u8> {
    match e {
        KeyEntry::Aes256(k) => k@,
        KeyEntry::Ed25519 { secret, public } => secret@ + public@,
        KeyEntry::Rsa { private_key, public_key } => private_key@,
    }
}

/// Whether `material` is acceptable for importing a key of type `t`:
/// exactly 32 bytes for AES-256; exactly 64 bytes whose second half decodes
/// to a valid public key for Ed25519; anything for the mock RSA classes.
pub open spec fn import_acceptable(t: KeyType, material: Seq<u8>) -> bool {
    match t {
        KeyType::Aes256 => material.len() == 32,
        KeyType::Ed25519 => material.len() == 64 && ed_pub_decodable(
            material.subrange(32, 64),
        ),
        _ => true,
    }
}

/// The entry that importing `material` as type `t` stores.
pub open spec fn entry_matches_import(e: KeyEntry, t: KeyType, material: Seq<u8>) -> bool {
    match t {
        KeyType::Aes256 => e matches KeyEntry::Aes256(k) && k@ == material,
        KeyType::Ed25519 => e matches KeyEntry::Ed25519 { secret, public } && secret@
            == material.subrange(0, 32) && public@ == material.subrange(32, 64),
        _ => e matches KeyEntry::Rsa { private_key, public_key } && private_key@ == material
            && public_key@.len() == 64 && all_zero(public_key@),
    }
}

/// First entry stored under `id`, scanning from the most recent insertion.
pub open spec fn spec_lookup(keys: Seq<(String, KeyEntry)>, id: Seq<char>) -> Option<KeyEntry>
    decreases keys.len(),
{
    if keys.len() == 0 {
        None
    } else if keys[0].0@ == id {
        Some(keys[0].1)
    } else {
        spec_lookup(keys.drop_first(), id)
    }
}

/// Software HSM service: a store of key entries behind opaque string
/// identifiers.
#[derive(Debug)]
pub struct SoftwareHsmService {
    keys: Vec<(String, KeyEntry)>,
}

/// True when `post` is `pre` with one fresh entry under `id` shadowing the
/// rest, and lookups of every other identifier unchanged.
pub open spec fn pushed_entry(
    post: SoftwareHsmService,
    pre: SoftwareHsmService,
    id: Seq<char>,
) -> bool {
    &&& post.entries().len() == pre.entries().len() + 1
    &&& post.entries()[0].0@ == id
    &&& post.entries().skip(1) == pre.entries()
    &&& forall|id2: Seq<char>|
        id2 != id ==> #[trigger] spec_lookup(post.entries(), id2) == spec_lookup(
            pre.entries(),
            id2,
        )
}

impl SoftwareHsmService {
    /// The stored entries, newest first, at the specification level.
    pub closed spec fn entries(&self) -> Seq<(String, KeyEntry)> {
        self.keys@
    }

    /// Create an empty software store.
    pub fn new(_config: &Config) -> (r: Result<Self, Error>)
        ensures
            r is Ok,
            r->Ok_0.entries() == Seq::<(String, KeyEntry)>::empty(),
    {
        Ok(SoftwareHsmService { keys: Vec::new() })
    }

    /// Find the entry stored under `key_id`.
    fn find(&self, key_id: &str) -> (r: Option<&KeyEntry>)
        ensures
            r is Some <==> spec_lookup(self.entries(), key_id@) is Some,
            r matches Some(e) ==> spec_lookup(self.entries(), key_id@) == Some(*e),
    {
        let n = self.keys.len();
        let mut i: usize = 0;
        proof {
            assert(self.entries().skip(0) == self.entries());
        }
        while i < n
            invariant
                n == self.entries().len(),
                i <= n,
                spec_lookup(self.entries(), key_id@) == spec_lookup(
                    self.entries().skip(i as int),
                    key_id@,
                ),
            decreases n - i,
        {
            proof {
                assert(self.entries().skip(i as int)[0] == self.entries()[i as int]);
                assert(self.entries().skip(i as int).drop_first() == self.entries().skip(i + 1));
            }
            if crate::primitives::str_eq(self.keys[i].0.as_str(), key_id) {
                return Some(&self.keys[i].1);
            }
            i = i + 1;
        }
        None
    }

    /// Store a fresh entry under a fresh random identifier.
    fn push_entry(&mut self, entry: KeyEntry) -> (r: String)
        ensures
            pushed_entry(*final(self), *old(self), r@),
            final(self).entries()[0].1 == entry,
            r@.len() == 40,
    {
        let key_id = new_key_id();
        self.keys.insert(0, (key_id.clone(), entry));
        proof {
            assert(final(self).entries().skip(1) =~= old(self).entries());
            assert forall|id2: Seq<char>|
                id2 != key_id@ implies #[trigger] spec_lookup(final(self).entries(), id2)
                == spec_lookup(old(self).entries(), id2) by {
                assert(final(self).entries().drop_first() =~= old(self).entries());
            }
        }
        key_id
    }

    /// The AES-256 key stored under `key_id`.
    fn get_aes_key(&self, key_id: &str) -> (r: Result<[u8; 32], Error>)
        ensures
            r is Ok <==> (spec_lookup(self.entries(), key_id@) matches Some(
                KeyEntry::Aes256(_),
            )),
            r matches Ok(k) ==> spec_lookup(self.entries(), key_id@) matches Some(
                KeyEntry::Aes256(k2),
            ) && k@ == k2@,
            r is Err ==> r->Err_0 is Crypto,
    {
        match self.find(key_id) {
            Option::Some(entry) => match entry {
                KeyEntry::Aes256(k) => Ok(*k),
                _ => {
                    let mut m = String::new();
                    m.append("Key ");
                    m.append(key_id);
                    m.append(" is not an AES-256 key");
                    Err(Error::Crypto(m))
                },
            },
            Option::None => {
                let mut m = String::new();
                m.append("Key not found: ");
                m.append(key_id);
                Err(Error::Crypto(m))
            },
        }
    }

    /// The Ed25519 keypair stored under `key_id`, secret then public.
    fn get_ed25519_keypair(&self, key_id: &str) -> (r: Result<([u8; 32], [u8; 32]), Error>)
        ensures
            r is Ok <==> (spec_lookup(self.entries(), key_id@) matches Some(
                KeyEntry::Ed25519 { .. },
            )),
            r matches Ok(k) ==> spec_lookup(self.entries(), key_id@) matches Some(
                KeyEntry::Ed25519 { secret, public },
            ) && k.0@ == secret@ && k.1@ == public@,
            r is Err ==> r->Err_0 is Crypto,
    {
        match self.find(key_id) {
            Option::Some(entry) => match entry {
                KeyEntry::Ed25519 { secret, public } => Ok((*secret, *public)),
                _ => {
                    let mut m = String::new();
                    m.append("Key ");
                    m.append(key_id);
                    m.append(" is not an ED25519 key pair");
                    Err(Error::Crypto(m))
                },
            },
            Option::None => {
                let mut m = String::new();
                m.append("Key not found: ");
                m.append(key_id);
                Err(Error::Crypto(m))
            },
        }
    }

    /// Encrypt `data` under a stored AES-256 key, with a fresh random nonce
    /// prepended to the ciphertext.
    pub fn encrypt(&self, key_id: &str, data: &[u8]) -> (r: Result<Vec<u8>, Error>)
        ensures
            r is Ok <==> (spec_lookup(self.entries(), key_id@) matches Some(KeyEntry::Aes256(_))
                && data@.len() <= MAX_PLAINTEXT_LEN),
            r is Ok ==> (spec_lookup(self.entries(), key_id@) matches Some(KeyEntry::Aes256(k))
                && is_encryption_of(k@, r->Ok_0@, data@)),
            r is Err ==> r->Err_0 is Crypto,
    {
        let key = match self.get_aes_key(key_id) {
            Ok(k) => k,
            Err(e) => {
                return Err(e);
            },
        };
        seal_blob(&key, data)
    }

    /// Decrypt a nonce-prefixed envelope under a stored AES-256 key;
    /// rejects envelopes shorter than the nonce before touching any key.
    pub fn decrypt(&self, key_id: &str, encrypted_data: &[u8]) -> (r: Result<Vec<u8>, Error>)
        ensures
            r is Ok <==> (spec_lookup(self.entries(), key_id@) matches Some(KeyEntry::Aes256(k))
                && decrypts_to(k@, encrypted_data@) is Some),
            r is Ok ==> (spec_lookup(self.entries(), key_id@) matches Some(KeyEntry::Aes256(k))
                && decrypts_to(k@, encrypted_data@) == Some(r->Ok_0@)),
            r is Err ==> r->Err_0 is Crypto,
    {
        if encrypted_data.len() < NONCE_LEN {
            return Err(Error::Crypto("Invalid encrypted data".to_owned()));
        }
        let key = match self.get_aes_key(key_id) {
            Ok(k) => k,
            Err(e) => {
                return Err(e);
            },
        };
        open_blob(&key, encrypted_data)
    }

    /// Sign `data` with a stored Ed25519 keypair. For a keypair whose
    /// public half is derived from its secret half — every generated
    /// keypair — the signature verifies under that public half.
    pub fn sign(&self, key_id: &str, data: &[u8]) -> (r: Result<Vec<u8>, Error>)
        ensures
            r is Ok <==> (spec_lookup(self.entries(), key_id@) matches Some(
                KeyEntry::Ed25519 { .. },
            )),
            r is Ok ==> (spec_lookup(self.entries(), key_id@) matches Some(
                KeyEntry::Ed25519 { secret, public },
            ) && r->Ok_0@ == ed_sign(secret@, data@) && r->Ok_0@.len() == 64 && (public@
                == ed_public_of(secret@) ==> ed_verify(public@, data@, r->Ok_0@))),
            r is Err ==> r->Err_0 is Crypto,
    {
        let (secret, _public) = match self.get_ed25519_keypair(key_id) {
            Ok(k) => k,
            Err(e) => {
                return Err(e);
            },
        };
        Ok(ed_sign_exec(&secret, data))
    }

    /// Verify a signature with a stored Ed25519 keypair: false for any
    /// signature that is not exactly 64 bytes, before any key lookup.
    pub fn verify(&self, key_id: &str, data: &[u8], signature: &[u8]) -> (r: Result<bool, Error>)
        ensures
            signature@.len() != 64 ==> r is Ok && r->Ok_0 == false,
            signature@.len() == 64 ==> ((r is Ok <==> spec_lookup(self.entries(), key_id@) matches
                Some(KeyEntry::Ed25519 { .. }))),
            signature@.len() == 64 && r is Ok ==> (spec_lookup(self.entries(), key_id@) matches
                Some(KeyEntry::Ed25519 { secret, public }) && r->Ok_0 == (ed_pub_decodable(
                public@,
            ) && ed_verify(public@, data@, signature@))),
            r is Err ==> r->Err_0 is Crypto,
    {
        if signature.len() != 64 {
            return Ok(false);
        }
        let (_secret, public) = match self.get_ed25519_keypair(key_id) {
            Ok(k) => k,
            Err(e) => {
                return Err(e);
            },
        };
        Ok(ed_verify_exec(&public, data, signature))
    }

    /// Generate a fresh key of the requested type and store it under a
    /// fresh identifier. Every key type is supported: the RSA-class types
    /// are held as opaque random bytes, as mock custody.
    pub fn generate_key(&mut self, key_type: KeyType) -> (r: Result<String, Error>)
        ensures
            r is Ok,
            pushed_entry(*final(self), *old(self), r->Ok_0@),
            match key_type {
                KeyType::Aes256 => final(self).entries()[0].1 is Aes256,
                KeyType::Ed25519 => final(self).entries()[0].1 matches KeyEntry::Ed25519 {
                    secret,
                    public,
                } && public@ == ed_public_of(secret@) && ed_pub_decodable(public@),
                _ => final(self).entries()[0].1 is Rsa,
            },
    {
        let entry = match key_type {
            KeyType::Aes256 => {
                let k = fill_random(32);
                KeyEntry::Aes256(to_array_32(k.as_slice()))
            },
            KeyType::Ed25519 => {
                let (sk, pk) = ed_generate();
                KeyEntry::Ed25519 {
                    secret: to_array_32(sk.as_slice()),
                    public: to_array_32(pk.as_slice()),
                }
            },
            _ => {
                let private_key = fill_random(32);
                let public_key = fill_random(64);
                KeyEntry::Rsa { private_key, public_key }
            },
        };
        Ok(self.push_entry(entry))
    }

    /// Import key material of the requested type, validating its length and
    /// format, and store it under a fresh identifier.
    pub fn import_key(&mut self, key_type: KeyType, key_material: &[u8]) -> (r: Result<
        String,
        Error,
    >)
        ensures
            r is Ok <==> import_acceptable(key_type, key_material@),
            r is Err ==> r->Err_0 is Crypto && *final(self) == *old(self),
            r is Ok ==> pushed_entry(*final(self), *old(self), r->Ok_0@) && entry_matches_import(
                final(self).entries()[0].1,
                key_type,
                key_material@,
            ),
    {
        let entry = match key_type {
            KeyType::Aes256 => {
                if key_material.len() != 32 {
                    return Err(Error::Crypto("Invalid AES-256 key length".to_owned()));
                }
                KeyEntry::Aes256(to_array_32(key_material))
            },
            KeyType::Ed25519 => {
                if key_material.len() != 64 {
                    return Err(Error::Crypto("Invalid ED25519 key length".to_owned()));
                }
                let secret = vstd::slice::slice_subrange(key_material, 0, 32);
                let public = vstd::slice::slice_subrange(key_material, 32, 64);
                if !ed_pub_check(public) {
                    return Err(Error::Crypto("Invalid ED25519 public key".to_owned()));
                }
                KeyEntry::Ed25519 {
                    secret: to_array_32(secret),
                    public: to_array_32(public),
                }
            },
            _ => {
                let mut private_key: Vec<u8> = Vec::new();
                extend_bytes(&mut private_key, key_material);
                let mut public_key: Vec<u8> = Vec::new();
                let mut i: usize = 0;
                while i < 64
                    invariant
                        public_key@.len() == i,
                        i <= 64,
                        all_zero(public_key@),
                    decreases 64 - i,
                {
                    public_key.push(0u8);
                    i = i + 1;
                }
                KeyEntry::Rsa { private_key, public_key }
            },
        };
        Ok(self.push_entry(entry))
    }

    /// The public half of a stored asymmetric key; symmetric entries have
    /// none.
    pub fn get_public_key(&self, key_id: &str) -> (r: Result<Vec<u8>, Error>)
        ensures
            r is Ok <==> (spec_lookup(self.entries(), key_id@) matches Some(e)
                && !(e is Aes256)),
            r is Ok ==> (spec_lookup(self.entries(), key_id@) matches Some(e) && match e {
                KeyEntry::Ed25519 { secret, public } => r->Ok_0@ == public@,
                KeyEntry::Rsa { private_key, public_key } => r->Ok_0@ == public_key@,
                KeyEntry::Aes256(_) => false,
            }),
            r is Err ==> r->Err_0 is Crypto,
    {
        match self.find(key_id) {
            Option::Some(entry) => match entry {
                KeyEntry::Ed25519 { secret: _, public } => {
                    let mut out: Vec<u8> = Vec::new();
                    extend_bytes(&mut out, public.as_slice());
                    proof {
                        assert(out@ =~= public@);
                    }
                    Ok(out)
                },
                KeyEntry::Rsa { private_key: _, public_key } => {
                    let mut out: Vec<u8> = Vec::new();
                    extend_bytes(&mut out, public_key.as_slice());
                    proof {
                        assert(out@ =~= public_key@);
                    }
                    Ok(out)
                },
                KeyEntry::Aes256(_) => {
                    let mut m = String::new();
                    m.append("Key ");
                    m.append(key_id);
                    m.append(" does not have a public key");
                    Err(Error::Crypto(m))
                },
            },
            Option::None => {
                let mut m = String::new();
                m.append("Key not found: ");
                m.append(key_id);
                Err(Error::Crypto(m))
            },
        }
    }

    /// Derive a fresh AES-256 key from a stored AES-256 base key and
    /// caller-supplied context, by a one-way hash of key and context, and
    /// store it under a fresh identifier.
    pub fn derive_key(&mut self, base_key_id: &str, info: &[u8]) -> (r: Result<String, Error>)
        ensures
            r is Ok <==> (spec_lookup(old(self).entries(), base_key_id@) matches Some(
                KeyEntry::Aes256(_),
            )),
            r is Err ==> r->Err_0 is Crypto && *final(self) == *old(self),
            r is Ok ==> pushed_entry(*final(self), *old(self), r->Ok_0@) && (spec_lookup(
                old(self).entries(),
                base_key_id@,
            ) matches Some(KeyEntry::Aes256(k)) && final(self).entries()[0].1 matches
                KeyEntry::Aes256(d) && d@ == sha256_digest(k@ + info@)),
    {
        let base = match self.get_aes_key(base_key_id) {
            Ok(k) => k,
            Err(e) => {
                return Err(e);
            },
        };
        let digest = sha256_digest_exec(base.as_slice(), info);
        let entry = KeyEntry::Aes256(to_array_32(digest.as_slice()));
        Ok(self.push_entry(entry))
    }

    /// Export the entry stored under `key_id`, serialized and encrypted
    /// under the AES-256 key stored under `wrapping_key_id`.
    pub fn wrap_key(&self, key_id: &str, wrapping_key_id: &str) -> (r: Result<Vec<u8>, Error>)
        ensures
            r is Ok <==> (spec_lookup(self.entries(), key_id@) matches Some(e) && spec_lookup(
                self.entries(),
                wrapping_key_id@,
            ) matches Some(KeyEntry::Aes256(_)) && entry_serialized(e).len()
                <= MAX_PLAINTEXT_LEN),
            r is Ok ==> (spec_lookup(self.entries(), key_id@) matches Some(e) && spec_lookup(
                self.entries(),
                wrapping_key_id@,
            ) matches Some(KeyEntry::Aes256(w)) && is_encryption_of(
                w@,
                r->Ok_0@,
                entry_serialized(e),
            )),
            r is Err ==> r->Err_0 is Crypto,
    {
        let key_bytes: Vec<u8> = match self.find(key_id) {
            Option::Some(entry) => match entry {
                KeyEntry::Aes256(k) => {
                    let mut out: Vec<u8> = Vec::new();
                    extend_bytes(&mut out, k.as_slice());
                    proof {
                        assert(out@ =~= entry_serialized(*entry));
                    }
                    out
                },
                KeyEntry::Ed25519 { secret, public } => {
                    let mut out: Vec<u8> = Vec::new();
                    extend_bytes(&mut out, secret.as_slice());
                    extend_bytes(&mut out, public.as_slice());
                    proof {
                        assert(out@ =~= entry_serialized(*entry));
                    }
                    out
                },
                KeyEntry::Rsa { private_key, public_key: _ } => {
                    let mut out: Vec<u8> = Vec::new();
                    extend_bytes(&mut out, private_key.as_slice());
                    proof {
                        assert(out@ =~= entry_serialized(*entry));
                    }
                    out
                },
            },
            Option::None => {
                let mut m = String::new();
                m.append("Key not found: ");
                m.append(key_id);
                return Err(Error::Crypto(m));
            },
        };
        let wrapping = match self.get_aes_key(wrapping_key_id) {
            Ok(k) => k,
            Err(e) => {
                return Err(e);
            },
        };
        seal_blob(&wrapping, key_bytes.as_slice())
    }

    /// Decrypt a wrapped key under a stored AES-256 wrapping key and import
    /// the result as a key of the requested type.
    pub fn unwrap_key(&mut self, wrapped_key: &[u8], wrapping_key_id: &str, key_type: KeyType) -> (r:
        Result<String, Error>)
        ensures
            r is Err ==> r->Err_0 is Crypto && *final(self) == *old(self),
            r is Ok <==> (spec_lookup(old(self).entries(), wrapping_key_id@) matches Some(
                KeyEntry::Aes256(w),
            ) && decrypts_to(w@, wrapped_key@) matches Some(pt) && import_acceptable(
                key_type,
                pt,
            )),
            r is Ok ==> (spec_lookup(old(self).entries(), wrapping_key_id@) matches Some(
                KeyEntry::Aes256(w),
            ) && decrypts_to(w@, wrapped_key@) matches Some(pt) && pushed_entry(
                *final(self),
                *old(self),
                r->Ok_0@,
            ) && entry_matches_import(final(self).entries()[0].1, key_type, pt)),
    {
        let key_bytes = match self.decrypt(wrapping_key_id, wrapped_key) {
            Ok(b) => b,
            Err(e) => {
                return Err(e);
            },
        };
        self.import_key(key_type, key_bytes.as_slice())
    }
}

impl HsmService for SoftwareHsmService {
    fn encrypt(&self, key_id: &str, data: &[u8]) -> Result<Vec<u8>, Error> {
        SoftwareHsmService::encrypt(self, key_id, data)
    }

    fn decrypt(&self, key_id: &str, encrypted_data: &[u8]) -> Result<Vec<u8>, Error> {
        SoftwareHsmService::decrypt(self, key_id, encrypted_data)
    }

    fn sign(&self, key_id: &str, data: &[u8]) -> Result<Vec<u8>, Error> {
        SoftwareHsmService::sign(self, key_id, data)
    }

    fn verify(&self, key_id: &str, data: &[u8], signature: &[u8]) -> Result<bool, Error> {
        SoftwareHsmService::verify(self, key_id, data, signature)
    }

    fn generate_key(&mut self, key_type: KeyType) -> Result<String, Error> {
        SoftwareHsmService::generate_key(self, key_type)
    }

    fn import_key(&mut self, key_type: KeyType, key_material: &[u8]) -> Result<String, Error> {
        SoftwareHsmService::import_key(self, key_type, key_material)
    }

    fn get_public_key(&self, key_id: &str) -> Result<Vec<u8>, Error> {
        SoftwareHsmService::get_public_key(self, key_id)
    }

    fn derive_key(&mut self, base_key_id: &str, info: &[u8]) -> Result<String, Error> {
        SoftwareHsmService::derive_key(self, base_key_id, info)
    }

    fn wrap_key(&self, key_id: &str, wrapping_key_id: &str) -> Result<Vec<u8>, Error> {
        SoftwareHsmService::wrap_key(self, key_id, wrapping_key_id)
    }

    fn unwrap_key(
        &mut self,
        wrapped_key: &[u8],
        wrapping_key_id: &str,
        key_type: KeyType,
    ) -> Result<String, Error> {
        SoftwareHsmService::unwrap_key(self, wrapped_key, wrapping_key_id, key_type)
    }
}

} // verus!
