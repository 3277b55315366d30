//! Post-quantum provider: Dilithium5 signatures and Kyber1024 key
//! encapsulation under a mandatory rotation policy.
//!
//! Signing, encapsulation and decapsulation are gated: once the rotation
//! interval has elapsed they fail with a rotation error until an explicit
//! rotation succeeds — no operation ever rotates keys on its own.
//! Verification applies an independent freshness window to signatures that
//! carry an embedded timestamp prefix.

use vstd::prelude::*;

use crate::error::Error;
use crate::crypto::extend_bytes;
use crate::primitives::{
    current_unix_time, dil_generate, dil_keypair_related, dil_sign, dil_sign_exec, dil_verify,
    dil_verify_exec, kyber_decap, kyber_decap_exec, kyber_encap_exec, kyber_generate,
    kyber_keypair_related, DIL_PUBLIC_LEN, DIL_SECRET_LEN, DIL_SIG_LEN, KYBER_CT_LEN,
    KYBER_PUBLIC_LEN, KYBER_SECRET_LEN, KYBER_SS_LEN,
};
use crate::wipe::{all_zero, wipe_bytes};

verus! {

/// Mandatory rotation interval for post-quantum keys: seven days.
pub const KEY_ROTATION_INTERVAL: u64 = 7 * 24 * 60 * 60;

/// Freshness window for timestamped signatures: five minutes.
pub const MAX_SIGNATURE_AGE: u64 = 5 * 60;

/// Rotation lifecycle attached to a keypair subject to mandatory rotation.
#[derive(Debug, Clone, Copy)]
pub struct RotationState {
    /// When the keypair was first created, as a Unix timestamp.
    pub created_at: u64,
    /// When the keypair was last rotated, as a Unix timestamp.
    pub last_rotation: u64,
    /// Allowed age in seconds before operations are gated.
    pub interval: u64,
}

/// True once the rotation interval has elapsed: gated operations must
/// refuse to run until an explicit rotation succeeds.
pub open spec fn rotation_due(st: RotationState, now: u64) -> bool {
    now > st.last_rotation + st.interval
}

/// A successful rotation at time `now` reopens sign, encapsulate and
/// decapsulate at that time: rotation is never due immediately after the
/// rotation that recorded `now`.
pub proof fn lemma_rotation_gate_resets(st: RotationState, now: u64)
    ensures
        !rotation_due(
            RotationState {
                created_at: st.created_at,
                last_rotation: now,
                interval: st.interval,
            },
            now,
        ),
{
}

/// The little-endian 64-bit value of eight bytes.
pub open spec fn le64(s: Seq<u8>) -> u64 {
    (s[0] + s[1] * 0x100 + s[2] * 0x1_0000 + s[3] * 0x100_0000 + s[4] * 0x1_0000_0000 + s[5]
        * 0x100_0000_0000 + s[6] * 0x1_0000_0000_0000 + s[7] * 0x100_0000_0000_0000) as u64
}

/// The embedded timestamp prefix of a signature, when it is long enough to
/// carry one.
pub open spec fn extract_timestamp(sig: Seq<u8>) -> Option<u64> {
    if sig.len() < 8 {
        None
    } else {
        Some(le64(sig.subrange(0, 8)))
    }
}

/// True when a signature's embedded timestamp lies further in the past
/// than the freshness window allows.
pub open spec fn sig_expired(sig: Seq<u8>, now: u64) -> bool {
    match extract_timestamp(sig) {
        Option::Some(ts) => ts < now && now - ts > MAX_SIGNATURE_AGE,
        Option::None => false,
    }
}

/// Post-quantum provider state: a Dilithium5 signing keypair, a Kyber1024
/// encapsulation keypair, and their rotation lifecycle.
pub struct PQCProvider {
    signing_secret: Vec<u8>,
    signing_public: Vec<u8>,
    kem_secret: Vec<u8>,
    kem_public: Vec<u8>,
    rotation: RotationState,
}

impl PQCProvider {
    /// The signing secret key bytes, at the specification level.
    pub closed spec fn signing_secret_bytes(&self) -> Seq<u8> {
        self.signing_secret@
    }

    /// The signing public key bytes, at the specification level.
    pub closed spec fn signing_public_bytes(&self) -> Seq<u8> {
        self.signing_public@
    }

    /// The encapsulation secret key bytes, at the specification level.
    pub closed spec fn kem_secret_bytes(&self) -> Seq<u8> {
        self.kem_secret@
    }

    /// The encapsulation public key bytes, at the specification level.
    pub closed spec fn kem_public_bytes(&self) -> Seq<u8> {
        self.kem_public@
    }

    /// The rotation lifecycle, at the specification level.
    pub closed spec fn rotation_state(&self) -> RotationState {
        self.rotation
    }

    /// Structural validity: every key has its algorithm's exact length.
    pub open spec fn wf(&self) -> bool {
        &&& self.signing_secret_bytes().len() == DIL_SECRET_LEN
        &&& self.signing_public_bytes().len() == DIL_PUBLIC_LEN
        &&& self.kem_secret_bytes().len() == KYBER_SECRET_LEN
        &&& self.kem_public_bytes().len() == KYBER_PUBLIC_LEN
    }

    /// True when both halves of each keypair belong together, as they do
    /// for every generated or rotated provider.
    pub open spec fn keypairs_related(&self) -> bool {
        &&& dil_keypair_related(self.signing_public_bytes(), self.signing_secret_bytes())
        &&& kyber_keypair_related(self.kem_public_bytes(), self.kem_secret_bytes())
    }

    /// Generate a provider with fresh keypairs at an explicit time.
    pub fn new_at(now: u64) -> (r: Self)
        ensures
            r.wf(),
            r.keypairs_related(),
            r.rotation_state().created_at == now,
            r.rotation_state().last_rotation == now,
            r.rotation_state().interval == KEY_ROTATION_INTERVAL,
    {
        let (signing_public, signing_secret) = dil_generate();
        let (kem_public, kem_secret) = kyber_generate();
        PQCProvider {
            signing_secret,
            signing_public,
            kem_secret,
            kem_public,
            rotation: RotationState {
                created_at: now,
                last_rotation: now,
                interval: KEY_ROTATION_INTERVAL,
            },
        }
    }

    /// Generate a provider with fresh keypairs at the current time.
    pub fn new() -> (r: Result<Self, Error>)
        ensures
            r is Ok,
            r->Ok_0.wf(),
            r->Ok_0.keypairs_related(),
            r->Ok_0.rotation_state().last_rotation == r->Ok_0.rotation_state().created_at,
            r->Ok_0.rotation_state().interval == KEY_ROTATION_INTERVAL,
    {
        let now = current_unix_time();
        Ok(Self::new_at(now))
    }

    /// Whether the rotation gate is closed at an explicit time.
    pub fn needs_rotation_at(&self, now: u64) -> (r: bool)
        ensures
            r == rotation_due(self.rotation_state(), now),
    {
        now > self.rotation.last_rotation && now - self.rotation.last_rotation
            > self.rotation.interval
    }

    /// Whether the rotation gate is closed at the current time.
    pub fn needs_rotation(&self) -> bool {
        let now = current_unix_time();
        self.needs_rotation_at(now)
    }

    /// Sign a message at an explicit time; refused once rotation is due.
    pub fn sign_at(&self, message: &[u8], now: u64) -> (r: Result<Vec<u8>, Error>)
        requires
            self.wf(),
        ensures
            r is Err <==> rotation_due(self.rotation_state(), now),
            r is Err ==> r->Err_0 is Crypto,
            r is Ok ==> r->Ok_0@ == dil_sign(self.signing_secret_bytes(), message@)
                && r->Ok_0@.len() == DIL_SIG_LEN && (self.keypairs_related() ==> dil_verify(
                self.signing_public_bytes(),
                message@,
                r->Ok_0@,
            )),
    {
        if self.needs_rotation_at(now) {
            return Err(Error::Crypto("Keys need rotation before signing".to_owned()));
        }
        Ok(dil_sign_exec(self.signing_secret.as_slice(), message))
    }

    /// Sign a message at the current time; refused once rotation is due.
    pub fn sign(&self, message: &[u8]) -> (r: Result<Vec<u8>, Error>)
        requires
            self.wf(),
        ensures
            r is Err ==> r->Err_0 is Crypto,
            r is Ok ==> r->Ok_0@ == dil_sign(self.signing_secret_bytes(), message@)
                && r->Ok_0@.len() == DIL_SIG_LEN && (self.keypairs_related() ==> dil_verify(
                self.signing_public_bytes(),
                message@,
                r->Ok_0@,
            )),
    {
        let now = current_unix_time();
        self.sign_at(message, now)
    }

    /// Verify a signature at an explicit time. Structurally malformed
    /// signatures — longer than the scheme's fixed length — are an error;
    /// a signature whose embedded timestamp prefix has aged past the
    /// freshness window fails closed, independent of rotation state;
    /// everything else reports whether the signature verifies.
    pub fn verify_at(&self, message: &[u8], signature: &[u8], now: u64) -> (r: Result<bool, Error>)
        requires
            self.wf(),
        ensures
            signature@.len() > DIL_SIG_LEN ==> r is Err,
            signature@.len() <= DIL_SIG_LEN && sig_expired(signature@, now) ==> r is Err,
            r is Err ==> r->Err_0 is Crypto,
            r is Ok <==> signature@.len() <= DIL_SIG_LEN && !sig_expired(signature@, now),
            r is Ok ==> r->Ok_0 == dil_verify(self.signing_public_bytes(), message@, signature@),
    {
        if signature.len() > DIL_SIG_LEN {
            return Err(Error::Crypto("Invalid signature format".to_owned()));
        }
        if signature.len() >= 8 {
            let ts = read_le64(signature);
            proof {
                assert(extract_timestamp(signature@) == Some(ts));
            }
            if ts < now && now - ts > MAX_SIGNATURE_AGE {
                return Err(Error::Crypto("Signature has expired".to_owned()));
            }
        }
        Ok(dil_verify_exec(self.signing_public.as_slice(), message, signature))
    }

    /// Verify a signature at the current time.
    pub fn verify(&self, message: &[u8], signature: &[u8]) -> (r: Result<bool, Error>)
        requires
            self.wf(),
        ensures
            signature@.len() > DIL_SIG_LEN ==> r is Err,
            r is Err ==> r->Err_0 is Crypto,
            r is Ok ==> r->Ok_0 == dil_verify(self.signing_public_bytes(), message@, signature@),
    {
        let now = current_unix_time();
        self.verify_at(message, signature, now)
    }

    /// Encapsulate a fresh shared secret against the provider's own
    /// public key at an explicit time, yielding the ciphertext and the
    /// secret; refused once rotation is due.
    pub fn encapsulate_at(&self, now: u64) -> (r: Result<(Vec<u8>, Vec<u8>), Error>)
        requires
            self.wf(),
        ensures
            r is Err <==> rotation_due(self.rotation_state(), now),
            r is Err ==> r->Err_0 is Crypto,
            r is Ok ==> r->Ok_0.0@.len() == KYBER_CT_LEN && r->Ok_0.1@.len() == KYBER_SS_LEN && (
            self.keypairs_related() ==> kyber_decap(self.kem_secret_bytes(), r->Ok_0.0@)
                == r->Ok_0.1@),
    {
        if self.needs_rotation_at(now) {
            return Err(Error::Crypto("Keys need rotation before encapsulation".to_owned()));
        }
        let (ss, ct) = kyber_encap_exec(self.kem_public.as_slice());
        Ok((ct, ss))
    }

    /// Encapsulate at the current time; refused once rotation is due.
    pub fn encapsulate(&self) -> (r: Result<(Vec<u8>, Vec<u8>), Error>)
        requires
            self.wf(),
        ensures
            r is Err ==> r->Err_0 is Crypto,
            r is Ok ==> r->Ok_0.0@.len() == KYBER_CT_LEN && r->Ok_0.1@.len() == KYBER_SS_LEN && (
            self.keypairs_related() ==> kyber_decap(self.kem_secret_bytes(), r->Ok_0.0@)
                == r->Ok_0.1@),
    {
        let now = current_unix_time();
        self.encapsulate_at(now)
    }

    /// Recover the shared secret of a ciphertext at an explicit time;
    /// refused once rotation is due, and an error for ciphertext of the
    /// wrong length.
    pub fn decapsulate_at(&self, ciphertext: &[u8], now: u64) -> (r: Result<Vec<u8>, Error>)
        requires
            self.wf(),
        ensures
            r is Ok <==> !rotation_due(self.rotation_state(), now) && ciphertext@.len()
                == KYBER_CT_LEN,
            r is Err ==> r->Err_0 is Crypto,
            r is Ok ==> r->Ok_0@ == kyber_decap(self.kem_secret_bytes(), ciphertext@)
                && r->Ok_0@.len() == KYBER_SS_LEN,
    {
        if self.needs_rotation_at(now) {
            return Err(Error::Crypto("Keys need rotation before decapsulation".to_owned()));
        }
        if ciphertext.len() != KYBER_CT_LEN {
            return Err(Error::Crypto("Invalid KEM ciphertext format".to_owned()));
        }
        Ok(kyber_decap_exec(self.kem_secret.as_slice(), ciphertext))
    }

    /// Decapsulate at the current time; refused once rotation is due.
    pub fn decapsulate(&self, ciphertext: &[u8]) -> (r: Result<Vec<u8>, Error>)
        requires
            self.wf(),
        ensures
            r is Err ==> r->Err_0 is Crypto,
            r is Ok ==> r->Ok_0@ == kyber_decap(self.kem_secret_bytes(), ciphertext@)
                && r->Ok_0@.len() == KYBER_SS_LEN,
    {
        let now = current_unix_time();
        self.decapsulate_at(ciphertext, now)
    }

    /// Rotate at an explicit time: generate fresh keypairs, overwrite the
    /// previous secret bytes with zeros in place before replacing them,
    /// and record the rotation time. Only an explicit call rotates keys.
    pub fn rotate_keys_at(&mut self, now: u64)
        ensures
            final(self).wf(),
            final(self).keypairs_related(),
            final(self).rotation_state().created_at == old(self).rotation_state().created_at,
            final(self).rotation_state().last_rotation == now,
            final(self).rotation_state().interval == old(self).rotation_state().interval,
    {
        let (new_signing_public, new_signing_secret) = dil_generate();
        let (new_kem_public, new_kem_secret) = kyber_generate();
        wipe_bytes(&mut self.signing_secret);
        wipe_bytes(&mut self.kem_secret);
        self.signing_secret = new_signing_secret;
        self.signing_public = new_signing_public;
        self.kem_secret = new_kem_secret;
        self.kem_public = new_kem_public;
        self.rotation = RotationState {
            created_at: self.rotation.created_at,
            last_rotation: now,
            interval: self.rotation.interval,
        };
    }

    /// Rotate at the current time.
    pub fn rotate_keys(&mut self) -> (r: Result<(), Error>)
        ensures
            r is Ok,
            final(self).wf(),
            final(self).keypairs_related(),
            final(self).rotation_state().created_at == old(self).rotation_state().created_at,
            final(self).rotation_state().interval == old(self).rotation_state().interval,
    {
        let now = current_unix_time();
        self.rotate_keys_at(now);
        Ok(())
    }

    /// Both public keys: signing first, then encapsulation.
    pub fn get_public_keys(&self) -> (r: (Vec<u8>, Vec<u8>))
        ensures
            r.0@ == self.signing_public_bytes(),
            r.1@ == self.kem_public_bytes(),
    {
        let mut sp: Vec<u8> = Vec::new();
        extend_bytes(&mut sp, self.signing_public.as_slice());
        let mut kp: Vec<u8> = Vec::new();
        extend_bytes(&mut kp, self.kem_public.as_slice());
        proof {
            assert(sp@ =~= self.signing_public_bytes());
            assert(kp@ =~= self.kem_public_bytes());
        }
        (sp, kp)
    }

    /// Age of the keypair in seconds at an explicit time, zero for a clock
    /// that went backwards.
    pub fn get_key_age_at(&self, now: u64) -> (r: u64)
        ensures
            r == if now >= self.rotation_state().created_at {
                (now - self.rotation_state().created_at) as u64
            } else {
                0u64
            },
    {
        if now >= self.rotation.created_at {
            now - self.rotation.created_at
        } else {
            0
        }
    }

    /// Age of the keypair in seconds at the current time.
    pub fn get_key_age(&self) -> u64 {
        let now = current_unix_time();
        self.get_key_age_at(now)
    }

    /// Dispose of the provider's secret material: overwrite every secret
    /// byte with zero. The provider is unusable afterwards; this is the
    /// explicit destruction the error path owes as much as the success
    /// path.
    pub fn destroy(&mut self)
        ensures
            all_zero(final(self).signing_secret_bytes()),
            all_zero(final(self).kem_secret_bytes()),
            final(self).signing_secret_bytes().len() == old(self).signing_secret_bytes().len(),
            final(self).kem_secret_bytes().len() == old(self).kem_secret_bytes().len(),
    {
        wipe_bytes(&mut self.signing_secret);
        wipe_bytes(&mut self.kem_secret);
    }

    /// Inspection hook: true when every secret byte is zero, as after
    /// [`Self::destroy`].
    pub fn secrets_zeroed(&self) -> (r: bool)
        ensures
            r == (all_zero(self.signing_secret_bytes()) && all_zero(self.kem_secret_bytes())),
    {
        bytes_all_zero(self.signing_secret.as_slice()) && bytes_all_zero(
            self.kem_secret.as_slice(),
        )
    }
}

/// Check that every byte of a slice is zero.
fn bytes_all_zero(s: &[u8]) -> (r: bool)
    ensures
        r == all_zero(s@),
{
    let n = s.len();
    let mut i: usize = 0;
    while i < n
        invariant
            n == s@.len(),
            i <= n,
            forall|j: int| 0 <= j < i ==> s@[j] == 0u8,
        decreases n - i,
    {
        if s[i] != 0 {
            return false;
        }
        i = i + 1;
    }
    true
}

/// Read the little-endian 64-bit prefix of a slice.
fn read_le64(s: &[u8]) -> (r: u64)
    requires
        s@.len() >= 8,
    ensures
        r == le64(s@.subrange(0, 8)),
{
    let b0 = s[0] as u64;
    let b1 = s[1] as u64;
    let b2 = s[2] as u64;
    let b3 = s[3] as u64;
    let b4 = s[4] as u64;
    let b5 = s[5] as u64;
    let b6 = s[6] as u64;
    let b7 = s[7] as u64;
    b0 + b1 * 0x100 + b2 * 0x1_0000 + b3 * 0x100_0000 + b4 * 0x1_0000_0000 + b5 * 0x100_0000_0000
        + b6 * 0x1_0000_0000_0000 + b7 * 0x100_0000_0000_0000
}

} // verus!
