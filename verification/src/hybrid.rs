//! Hybrid classical + post-quantum key exchange.
//!
//! A session key combines an X25519 agreement and a Kyber1024
//! encapsulation through one hash, so breaking either primitive alone
//! does not reveal it. Session traffic is protected by ChaCha20-Poly1305
//! under a key derived from the combined secret with a fixed context,
//! inside the same nonce-prefixed envelope layout as the symmetric
//! provider — but the two envelope kinds are not interchangeable.

use vstd::prelude::*;

use crate::error::Error;
use crate::crypto::extend_bytes;
use crate::pqc::{rotation_due, PQCProvider, RotationState};
use crate::primitives::{
    blake3_digest, blake3_digest_exec, chacha_open, chacha_open_exec, chacha_seal,
    chacha_seal_exec, current_unix_time, fill_random, kyber_encap_exec, kyber_keypair_related,
    x25519_generate, x25519_public_of, x25519_shared, x25519_shared_exec, KYBER_PUBLIC_LEN,
    KYBER_SS_LEN, MAX_PLAINTEXT_LEN, NONCE_LEN,
};
use crate::wipe::{all_zero, wipe_bytes};
use vstd::string::StringSliceAdditionalSpecFns;
use vstd::utf8::encode_utf8;

verus! {

/// The per-purpose encryption key derived from a combined session secret.
pub open spec fn derived_key(shared_secret: Seq<u8>) -> Seq<u8> {
    blake3_digest(shared_secret + encode_utf8("encryption"@))
}

/// True when `blob` is a well-formed hybrid envelope for `msg` under the
/// session secret `shared`: a 12-byte nonce followed by the
/// ChaCha20-Poly1305 seal under the derived key.
pub open spec fn is_hybrid_encryption_of(shared: Seq<u8>, blob: Seq<u8>, msg: Seq<u8>) -> bool {
    &&& blob.len() == msg.len() + 28
    &&& blob.subrange(12, blob.len() as int) == chacha_seal(
        derived_key(shared),
        blob.subrange(0, 12),
        msg,
    )
    &&& chacha_open(derived_key(shared), blob.subrange(0, 12), blob.subrange(
        12,
        blob.len() as int,
    )) == Some(msg)
}

/// What hybrid decryption of `blob` under the session secret yields.
pub open spec fn hybrid_decrypts_to(shared: Seq<u8>, blob: Seq<u8>) -> Option<Seq<u8>> {
    if blob.len() < 12 {
        None
    } else {
        chacha_open(derived_key(shared), blob.subrange(0, 12), blob.subrange(
            12,
            blob.len() as int,
        ))
    }
}

/// Round trip: hybrid decryption of any well-formed hybrid envelope for
/// `msg` yields exactly `msg`, whatever nonce the envelope carries.
pub proof fn lemma_hybrid_round_trip(shared: Seq<u8>, blob: Seq<u8>, msg: Seq<u8>)
    requires
        is_hybrid_encryption_of(shared, blob, msg),
    ensures
        hybrid_decrypts_to(shared, blob) == Some(msg),
{
}

/// Hybrid engine: a post-quantum provider plus a companion classical
/// X25519 keypair.
pub struct HybridCrypto {
    pqc: PQCProvider,
    classic_secret: Vec<u8>,
    classic_public: Vec<u8>,
}

impl HybridCrypto {
    /// The post-quantum half, at the specification level.
    pub closed spec fn pqc_state(&self) -> PQCProvider {
        self.pqc
    }

    /// The classical secret key bytes, at the specification level.
    pub closed spec fn classic_secret_bytes(&self) -> Seq<u8> {
        self.classic_secret@
    }

    /// The classical public key bytes, at the specification level.
    pub closed spec fn classic_public_bytes(&self) -> Seq<u8> {
        self.classic_public@
    }

    /// The rotation lifecycle of the post-quantum half.
    pub open spec fn rotation_state(&self) -> RotationState {
        self.pqc_state().rotation_state()
    }

    /// Structural validity of both halves.
    pub open spec fn wf(&self) -> bool {
        &&& self.pqc_state().wf()
        &&& self.classic_secret_bytes().len() == 32
        &&& self.classic_public_bytes().len() == 32
    }

    /// True when both halves hold keypairs that belong together, as every
    /// generated or rotated engine does.
    pub open spec fn keypairs_related(&self) -> bool {
        &&& self.pqc_state().keypairs_related()
        &&& self.classic_public_bytes() == x25519_public_of(self.classic_secret_bytes())
    }

    /// Generate an engine with fresh keypairs at an explicit time.
    pub fn new_at(now: u64) -> (r: Self)
        ensures
            r.wf(),
            r.keypairs_related(),
            r.rotation_state().created_at == now,
            r.rotation_state().last_rotation == now,
    {
        let pqc = PQCProvider::new_at(now);
        let (classic_secret, classic_public) = x25519_generate();
        HybridCrypto { pqc, classic_secret, classic_public }
    }

    /// Generate an engine with fresh keypairs at the current time.
    pub fn new() -> (r: Result<Self, Error>)
        ensures
            r is Ok,
            r->Ok_0.wf(),
            r->Ok_0.keypairs_related(),
    {
        let now = current_unix_time();
        Ok(Self::new_at(now))
    }

    /// Agree on a session key with a peer at an explicit time: a classical
    /// agreement against the peer's X25519 public key and an encapsulation
    /// against the peer's Kyber1024 public key, combined through one
    /// BLAKE3 hash. Refused once rotation is due; neither primitive alone
    /// determines the result.
    pub fn hybrid_key_exchange_at(
        &self,
        peer_classic: &[u8],
        peer_quantum: &[u8],
        now: u64,
    ) -> (r: Result<Vec<u8>, Error>)
        requires
            self.wf(),
        ensures
            r is Ok <==> !rotation_due(self.rotation_state(), now) && peer_classic@.len() == 32
                && peer_quantum@.len() == KYBER_PUBLIC_LEN,
            r is Err ==> r->Err_0 is Crypto,
            r is Ok ==> r->Ok_0@.len() == 32 && exists|ss: Seq<u8>|
                ss.len() == KYBER_SS_LEN && r->Ok_0@ == blake3_digest(
                    #[trigger] (x25519_shared(self.classic_secret_bytes(), peer_classic@) + ss),
                ),
    {
        if self.pqc.needs_rotation_at(now) {
            return Err(Error::Crypto("PQC keys need rotation".to_owned()));
        }
        if peer_classic.len() != 32 {
            return Err(Error::Crypto("Invalid classical public key length".to_owned()));
        }
        if peer_quantum.len() != KYBER_PUBLIC_LEN {
            return Err(Error::Crypto("Invalid KEM public key length".to_owned()));
        }
        let classic_shared = x25519_shared_exec(self.classic_secret.as_slice(), peer_classic);
        let (quantum_ss, _quantum_ct) = kyber_encap_exec(peer_quantum);
        let hybrid_key = blake3_digest_exec(classic_shared.as_slice(), quantum_ss.as_slice());
        Ok(hybrid_key)
    }

    /// Agree on a session key with a peer at the current time.
    pub fn hybrid_key_exchange(&self, peer_classic: &[u8], peer_quantum: &[u8]) -> (r: Result<
        Vec<u8>,
        Error,
    >)
        requires
            self.wf(),
        ensures
            r is Err ==> r->Err_0 is Crypto,
            peer_classic@.len() != 32 ==> r is Err,
            peer_quantum@.len() != KYBER_PUBLIC_LEN ==> r is Err,
            r is Ok ==> r->Ok_0@.len() == 32 && exists|ss: Seq<u8>|
                ss.len() == KYBER_SS_LEN && r->Ok_0@ == blake3_digest(
                    #[trigger] (x25519_shared(self.classic_secret_bytes(), peer_classic@) + ss),
                ),
    {
        let now = current_unix_time();
        self.hybrid_key_exchange_at(peer_classic, peer_quantum, now)
    }

    /// Encrypt a message under a session secret: ChaCha20-Poly1305 under
    /// the derived key, with a fresh random nonce prepended.
    pub fn hybrid_encrypt(&self, message: &[u8], shared_secret: &[u8]) -> (r: Result<
        Vec<u8>,
        Error,
    >)
        ensures
            r is Ok <==> message@.len() <= MAX_PLAINTEXT_LEN,
            r is Ok ==> is_hybrid_encryption_of(shared_secret@, r->Ok_0@, message@),
            r is Err ==> r->Err_0 is Crypto,
    {
        if message.len() > MAX_PLAINTEXT_LEN {
            return Err(Error::Crypto("Encryption failed: plaintext too long".to_owned()));
        }
        let key = blake3_digest_exec(shared_secret, "encryption".as_bytes());
        let mut output = fill_random(NONCE_LEN);
        let ghost nonce = output@;
        let mut ct = chacha_seal_exec(key.as_slice(), output.as_slice(), message);
        output.append(&mut ct);
        proof {
            assert(output@.subrange(0, 12) =~= nonce);
            assert(output@.subrange(12, output@.len() as int) =~= chacha_seal(
                derived_key(shared_secret@),
                nonce,
                message@,
            ));
        }
        Ok(output)
    }

    /// Decrypt a hybrid envelope under a session secret; rejects
    /// envelopes shorter than the nonce and authentication failures.
    pub fn hybrid_decrypt(&self, ciphertext: &[u8], shared_secret: &[u8]) -> (r: Result<
        Vec<u8>,
        Error,
    >)
        ensures
            r is Ok <==> hybrid_decrypts_to(shared_secret@, ciphertext@) is Some,
            r is Ok ==> hybrid_decrypts_to(shared_secret@, ciphertext@) == Some(r->Ok_0@),
            r is Err ==> r->Err_0 is Crypto,
    {
        if ciphertext.len() < NONCE_LEN {
            return Err(Error::Crypto("Invalid ciphertext length".to_owned()));
        }
        let key = blake3_digest_exec(shared_secret, "encryption".as_bytes());
        let nonce = vstd::slice::slice_subrange(ciphertext, 0, NONCE_LEN);
        let ct = vstd::slice::slice_subrange(ciphertext, NONCE_LEN, ciphertext.len());
        match chacha_open_exec(key.as_slice(), nonce, ct) {
            Option::Some(pt) => Ok(pt),
            Option::None => Err(Error::Crypto("Decryption failed".to_owned())),
        }
    }

    /// Rotate both halves at an explicit time: fresh post-quantum and
    /// classical keypairs, with the previous secret bytes overwritten
    /// with zeros in place before replacement.
    pub fn rotate_keys_at(&mut self, now: u64)
        ensures
            final(self).wf(),
            final(self).keypairs_related(),
            final(self).rotation_state().created_at == old(self).rotation_state().created_at,
            final(self).rotation_state().last_rotation == now,
            final(self).rotation_state().interval == old(self).rotation_state().interval,
    {
        self.pqc.rotate_keys_at(now);
        let (new_classic_secret, new_classic_public) = x25519_generate();
        wipe_bytes(&mut self.classic_secret);
        self.classic_secret = new_classic_secret;
        self.classic_public = new_classic_public;
    }

    /// Rotate both halves at the current time.
    pub fn rotate_keys(&mut self) -> (r: Result<(), Error>)
        ensures
            r is Ok,
            final(self).wf(),
            final(self).keypairs_related(),
            final(self).rotation_state().created_at == old(self).rotation_state().created_at,
            final(self).rotation_state().interval == old(self).rotation_state().interval,
    {
        let now = current_unix_time();
        self.rotate_keys_at(now);
        Ok(())
    }

    /// All three public keys: classical, post-quantum signing,
    /// post-quantum encapsulation.
    pub fn get_public_keys(&self) -> (r: (Vec<u8>, Vec<u8>, Vec<u8>))
        ensures
            r.0@ == self.classic_public_bytes(),
            r.1@ == self.pqc_state().signing_public_bytes(),
            r.2@ == self.pqc_state().kem_public_bytes(),
    {
        let (pqc_sign, pqc_kem) = self.pqc.get_public_keys();
        let mut cp: Vec<u8> = Vec::new();
        extend_bytes(&mut cp, self.classic_public.as_slice());
        proof {
            assert(cp@ =~= self.classic_public_bytes());
        }
        (cp, pqc_sign, pqc_kem)
    }

    /// Dispose of all secret material: overwrite the post-quantum and the
    /// classical secret bytes with zero.
    pub fn destroy(&mut self)
        ensures
            all_zero(final(self).classic_secret_bytes()),
            all_zero(final(self).pqc_state().signing_secret_bytes()),
            all_zero(final(self).pqc_state().kem_secret_bytes()),
    {
        self.pqc.destroy();
        wipe_bytes(&mut self.classic_secret);
    }

    /// Inspection hook: true when every secret byte of both halves is
    /// zero, as after [`Self::destroy`].
    pub fn secrets_zeroed(&self) -> (r: bool)
        ensures
            r == (all_zero(self.classic_secret_bytes()) && all_zero(
                self.pqc_state().signing_secret_bytes(),
            ) && all_zero(self.pqc_state().kem_secret_bytes())),
    {
        let classic = classic_all_zero(self.classic_secret.as_slice());
        classic && self.pqc.secrets_zeroed()
    }
}

/// Check that every byte of a slice is zero.
fn classic_all_zero(s: &[u8]) -> (r: bool)
    ensures
        r == all_zero(s@),
{
    let n = s.len();
    let mut i: usize = 0;
    while i < n
        invariant
            n == s@.len(),
            i <= n,
            forall|j: int| 0 <= j < i ==> s@[j] == 0u8,
        decreases n - i,
    {
        if s[i] != 0 {
            return false;
        }
        i = i + 1;
    }
    true
}

} // verus!
