//! Construction-time configuration of the secure-operations core.
//!
//! Supplied once by the host at startup: backend selection, base64-encoded
//! key material for bootstrapping, and the remote-custody connection
//! settings. The core performs no live reload.

use vstd::prelude::*;

verus! {

/// Configuration consumed once at construction.
#[derive(Debug, Clone)]
pub struct Config {
    /// Which cryptographic provider to construct (`"default"` or `"hsm"`).
    pub crypto_provider: String,
    /// Deployment environment; `"production"` forbids the software HSM.
    pub environment: String,
    /// Base64-encoded 32-byte AES-256 key; generated when absent.
    pub encryption_key: Option<String>,
    /// Base64-encoded 32-byte Ed25519 public key.
    pub signing_public_key: Option<String>,
    /// Base64-encoded 32-byte Ed25519 secret key.
    pub signing_private_key: Option<String>,
    /// Base64-encoded HMAC key; generated when absent.
    pub hmac_key: Option<String>,
    /// Which key-custody backend to construct (for example `"software"`).
    pub hsm_provider: String,
    /// Physical HSM vendor tag (`"thales"`, `"utimaco"`, `"safenet"`).
    pub hsm_vendor: Option<String>,
    /// AWS CloudHSM cluster identifier.
    pub aws_cloudhsm_cluster_id: Option<String>,
    /// AWS CloudHSM user.
    pub aws_cloudhsm_user: Option<String>,
    /// AWS CloudHSM password.
    pub aws_cloudhsm_password: Option<String>,
}

impl Default for Config {
    /// A development configuration: default provider, software custody, all
    /// key material freshly generated.
    fn default() -> (r: Self)
        ensures
            r.crypto_provider@ == "default"@,
            r.environment@ == "development"@,
            r.encryption_key is None,
            r.signing_public_key is None,
            r.signing_private_key is None,
            r.hmac_key is None,
            r.hsm_provider@ == "software"@,
            r.hsm_vendor is None,
            r.aws_cloudhsm_cluster_id is None,
            r.aws_cloudhsm_user is None,
            r.aws_cloudhsm_password is None,
    {
        Config {
            crypto_provider: "default".to_owned(),
            environment: "development".to_owned(),
            encryption_key: None,
            signing_public_key: None,
            signing_private_key: None,
            hmac_key: None,
            hsm_provider: "software".to_owned(),
            hsm_vendor: None,
            aws_cloudhsm_cluster_id: None,
            aws_cloudhsm_user: None,
            aws_cloudhsm_password: None,
        }
    }
}

} // verus!
