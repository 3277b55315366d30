//! Vendor-agnostic key-custody abstraction: provider selection, supported
//! key types, and the uniform capability surface every custody backend
//! offers. Operations are keyed by an opaque identifier; secret material
//! never leaves the backend.

use vstd::prelude::*;

use crate::config::Config;
use crate::crypto::bytes_eq;
use crate::error::Error;
use crate::hsm_software::SoftwareHsmService;
use vstd::string::StringSliceAdditionalSpecFns;
use vstd::utf8::encode_utf8;

verus! {

/// Key-custody provider selected by configuration.
#[derive(Debug, Clone, Copy, PartialEq, Eq, Structural)]
pub enum HsmProvider {
    /// AWS CloudHSM.
    AwsCloudHsm,
    /// Google Cloud HSM.
    GoogleCloudHsm,
    /// Azure Key Vault HSM.
    AzureKeyVault,
    /// Thales Luna HSM.
    ThalesLuna,
    /// Utimaco HSM.
    Utimaco,
    /// Software-based HSM, for development only.
    SoftwareHsm,
}

/// Key types a custody backend can hold.
#[derive(Debug, Clone, Copy, PartialEq, Eq, Structural)]
pub enum KeyType {
    /// AES-256 symmetric key.
    Aes256,
    /// ECDSA P-256 key pair.
    EcdsaP256,
    /// ECDSA P-384 key pair.
    EcdsaP384,
    /// RSA-2048 key pair.
    Rsa2048,
    /// RSA-4096 key pair.
    Rsa4096,
    /// Ed25519 key pair.
    Ed25519,
}

/// ASCII lowercase of one byte; bytes outside `A`..`Z` pass unchanged.
pub open spec fn lower_byte(b: u8) -> u8 {
    if 65 <= b && b <= 90 {
        (b + 32) as u8
    } else {
        b
    }
}

/// ASCII lowercase of a byte sequence.
pub open spec fn lowered(s: Seq<u8>) -> Seq<u8> {
    Seq::new(s.len(), |i: int| lower_byte(s[i]))
}

/// The provider a lowercased name selects, if any.
pub open spec fn spec_provider_of(low: Seq<u8>) -> Option<HsmProvider> {
    if low == encode_utf8("aws"@) || low == encode_utf8("aws_cloudhsm"@) {
        Some(HsmProvider::AwsCloudHsm)
    } else if low == encode_utf8("google"@) || low == encode_utf8("google_cloudhsm"@) {
        Some(HsmProvider::GoogleCloudHsm)
    } else if low == encode_utf8("azure"@) || low == encode_utf8("azure_keyvault"@) {
        Some(HsmProvider::AzureKeyVault)
    } else if low == encode_utf8("thales"@) || low == encode_utf8("thales_luna"@) {
        Some(HsmProvider::ThalesLuna)
    } else if low == encode_utf8("utimaco"@) {
        Some(HsmProvider::Utimaco)
    } else if low == encode_utf8("software"@) || low == encode_utf8("software_hsm"@) {
        Some(HsmProvider::SoftwareHsm)
    } else {
        None
    }
}

/// Compare a byte vector to the bytes of a literal name.
fn eq_lit(v: &Vec<u8>, lit: &str) -> (r: bool)
    ensures
        r == (v@ == lit.spec_bytes()),
{
    bytes_eq(v.as_slice(), lit.as_bytes())
}

impl HsmProvider {
    /// Parse a provider from its configured name, ASCII-case-insensitively.
    pub fn from_str(s: &str) -> (r: Result<HsmProvider, Error>)
        ensures
            match spec_provider_of(lowered(s.spec_bytes())) {
                Some(p) => r is Ok && r->Ok_0 == p,
                None => r is Err && r->Err_0 is Configuration,
            },
    {
        let b = s.as_bytes();
        let n = b.len();
        let mut low: Vec<u8> = Vec::new();
        let mut i: usize = 0;
        while i < n
            invariant
                n == b@.len(),
                i <= n,
                low@.len() == i,
                forall|j: int| 0 <= j < i ==> low@[j] == lower_byte(b@[j]),
            decreases n - i,
        {
            let c = b[i];
            if 65 <= c && c <= 90 {
                low.push(c + 32);
            } else {
                low.push(c);
            }
            i = i + 1;
        }
        proof {
            assert(low@ =~= lowered(b@));
        }
        if eq_lit(&low, "aws") || eq_lit(&low, "aws_cloudhsm") {
            Ok(HsmProvider::AwsCloudHsm)
        } else if eq_lit(&low, "google") || eq_lit(&low, "google_cloudhsm") {
            Ok(HsmProvider::GoogleCloudHsm)
        } else if eq_lit(&low, "azure") || eq_lit(&low, "azure_keyvault") {
            Ok(HsmProvider::AzureKeyVault)
        } else if eq_lit(&low, "thales") || eq_lit(&low, "thales_luna") {
            Ok(HsmProvider::ThalesLuna)
        } else if eq_lit(&low, "utimaco") {
            Ok(HsmProvider::Utimaco)
        } else if eq_lit(&low, "software") || eq_lit(&low, "software_hsm") {
            Ok(HsmProvider::SoftwareHsm)
        } else {
            let mut m = String::new();
            m.append("Unknown HSM provider: ");
            m.append(s);
            Err(Error::Configuration(m))
        }
    }
}

/// Uniform capability surface of a key-custody backend. Secret material
/// never crosses this interface: every operation names its key by an
/// opaque identifier.
pub trait HsmService {
    /// Encrypt data under a stored key.
    fn encrypt(&self, key_id: &str, data: &[u8]) -> Result<Vec<u8>, Error>;

    /// Decrypt data under a stored key.
    fn decrypt(&self, key_id: &str, encrypted_data: &[u8]) -> Result<Vec<u8>, Error>;

    /// Sign data with a stored key.
    fn sign(&self, key_id: &str, data: &[u8]) -> Result<Vec<u8>, Error>;

    /// Verify a signature with a stored key.
    fn verify(&self, key_id: &str, data: &[u8], signature: &[u8]) -> Result<bool, Error>;

    /// Generate a fresh key and return its identifier.
    fn generate_key(&mut self, key_type: KeyType) -> Result<String, Error>;

    /// Import key material and return its identifier.
    fn import_key(&mut self, key_type: KeyType, key_material: &[u8]) -> Result<String, Error>;

    /// The public half of a stored asymmetric key.
    fn get_public_key(&self, key_id: &str) -> Result<Vec<u8>, Error>;

    /// Derive a new key from a stored base key and caller context.
    fn derive_key(&mut self, base_key_id: &str, info: &[u8]) -> Result<String, Error>;

    /// Export a stored key encrypted under another stored key.
    fn wrap_key(&self, key_id: &str, wrapping_key_id: &str) -> Result<Vec<u8>, Error>;

    /// Decrypt a wrapped key and import it.
    fn unwrap_key(
        &mut self,
        wrapped_key: &[u8],
        wrapping_key_id: &str,
        key_type: KeyType,
    ) -> Result<String, Error>;
}

/// Create the custody backend a configuration selects. Only the software
/// backend is compiled into this build; every remote provider reports that
/// its support is not enabled, and the software backend refuses to run in
/// production.
pub fn create_hsm_service(config: &Config) -> (r: Result<SoftwareHsmService, Error>)
    ensures
        match spec_provider_of(lowered(encode_utf8(config.hsm_provider@))) {
            Some(HsmProvider::SoftwareHsm) => {
                if config.environment@ == "production"@ {
                    r is Err && r->Err_0 is Configuration
                } else {
                    r is Ok && r->Ok_0.entries() == Seq::<(String, crate::hsm_software::KeyEntry,
                    )>::empty()
                }
            },
            Some(_) => r is Err && r->Err_0 is Configuration,
            None => r is Err && r->Err_0 is Configuration,
        },
{
    let provider = match HsmProvider::from_str(config.hsm_provider.as_str()) {
        Ok(p) => p,
        Err(e) => {
            return Err(e);
        },
    };
    match provider {
        HsmProvider::AwsCloudHsm => Err(
            Error::Configuration("AWS CloudHSM support not enabled".to_owned()),
        ),
        HsmProvider::GoogleCloudHsm => Err(
            Error::Configuration("Google Cloud HSM support not enabled".to_owned()),
        ),
        HsmProvider::AzureKeyVault => Err(
            Error::Configuration("Azure Key Vault HSM support not enabled".to_owned()),
        ),
        HsmProvider::ThalesLuna => Err(
            Error::Configuration("Thales Luna HSM support not enabled".to_owned()),
        ),
        HsmProvider::Utimaco => Err(
            Error::Configuration("Utimaco HSM support not enabled".to_owned()),
        ),
        HsmProvider::SoftwareHsm => {
            if crate::primitives::str_eq(config.environment.as_str(), "production") {
                Err(Error::Configuration("Software HSM cannot be used in production".to_owned()))
            } else {
                SoftwareHsmService::new(config)
            }
        },
    }
}

} // verus!
