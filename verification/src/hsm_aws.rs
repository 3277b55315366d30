//! AWS CloudHSM custody backend.
//!
//! The client here is a stand-in for the vendor SDK: its operations have
//! fixed, fully specified behavior, which makes the surrounding service
//! logic checkable end to end while the real SDK stays outside this crate.

use vstd::prelude::*;

use crate::config::Config;
use crate::crypto::extend_bytes;
use crate::error::Error;
use crate::hsm::{HsmService, KeyType};
use crate::primitives::new_key_id;
use crate::wipe::all_zero;

verus! {

/// Mock AWS CloudHSM client with fixed, fully specified operations.
#[derive(Debug)]
pub struct Client {}

impl Client {
    /// Create a client.
    pub fn new() -> (r: Result<Self, Error>)
        ensures
            r is Ok,
    {
        Ok(Client {  })
    }

    /// Mock encryption: a 16-byte zero IV followed by the data unchanged.
    pub fn encrypt(&self, _key_id: &str, data: &[u8]) -> (r: Result<Vec<u8>, Error>)
        ensures
            r is Ok,
            r->Ok_0@.len() == data@.len() + 16,
            all_zero(r->Ok_0@.subrange(0, 16)),
            r->Ok_0@.subrange(16, r->Ok_0@.len() as int) == data@,
    {
        let mut result: Vec<u8> = Vec::new();
        let mut i: usize = 0;
        while i < 16
            invariant
                result@.len() == i,
                i <= 16,
                all_zero(result@),
            decreases 16 - i,
        {
            result.push(0u8);
            i = i + 1;
        }
        extend_bytes(&mut result, data);
        proof {
            assert(result@.subrange(16, result@.len() as int) =~= data@);
            assert(all_zero(result@.subrange(0, 16)));
        }
        Ok(result)
    }

    /// Mock decryption: strips a 16-byte IV, yielding the empty vector for
    /// shorter input.
    pub fn decrypt(&self, _key_id: &str, encrypted_data: &[u8]) -> (r: Result<Vec<u8>, Error>)
        ensures
            r is Ok,
            encrypted_data@.len() < 16 ==> r->Ok_0@ == Seq::<u8>::empty(),
            encrypted_data@.len() >= 16 ==> r->Ok_0@ == encrypted_data@.subrange(
                16,
                encrypted_data@.len() as int,
            ),
    {
        if encrypted_data.len() < 16 {
            return Ok(Vec::new());
        }
        let rest = vstd::slice::slice_subrange(encrypted_data, 16, encrypted_data.len());
        let mut out: Vec<u8> = Vec::new();
        extend_bytes(&mut out, rest);
        proof {
            assert(out@ =~= encrypted_data@.subrange(16, encrypted_data@.len() as int));
        }
        Ok(out)
    }

    /// Mock signing: a 64-byte zero signature.
    pub fn sign(&self, _key_id: &str, _data: &[u8]) -> (r: Result<Vec<u8>, Error>)
        ensures
            r is Ok,
            r->Ok_0@.len() == 64,
            all_zero(r->Ok_0@),
    {
        let mut out: Vec<u8> = Vec::new();
        let mut i: usize = 0;
        while i < 64
            invariant
                out@.len() == i,
                i <= 64,
                all_zero(out@),
            decreases 64 - i,
        {
            out.push(0u8);
            i = i + 1;
        }
        Ok(out)
    }

    /// Mock verification: always true.
    pub fn verify(&self, _key_id: &str, _data: &[u8], _signature: &[u8]) -> (r: Result<
        bool,
        Error,
    >)
        ensures
            r is Ok,
            r->Ok_0 == true,
    {
        Ok(true)
    }

    /// Mock key generation: a fresh identifier.
    pub fn generate_key(&self, _key_type: KeyType) -> (r: Result<String, Error>)
        ensures
            r is Ok,
            r->Ok_0@.len() == 40,
    {
        Ok(new_key_id())
    }

    /// Mock key import: a fresh identifier.
    pub fn import_key(&self, _key_type: KeyType, _key_material: &[u8]) -> (r: Result<
        String,
        Error,
    >)
        ensures
            r is Ok,
            r->Ok_0@.len() == 40,
    {
        Ok(new_key_id())
    }

    /// Mock public key: 65 zero bytes.
    pub fn get_public_key(&self, _key_id: &str) -> (r: Result<Vec<u8>, Error>)
        ensures
            r is Ok,
            r->Ok_0@.len() == 65,
            all_zero(r->Ok_0@),
    {
        let mut out: Vec<u8> = Vec::new();
        let mut i: usize = 0;
        while i < 65
            invariant
                out@.len() == i,
                i <= 65,
                all_zero(out@),
            decreases 65 - i,
        {
            out.push(0u8);
            i = i + 1;
        }
        Ok(out)
    }

    /// Mock key derivation: a fresh identifier.
    pub fn derive_key(&self, _base_key_id: &str, _info: &[u8]) -> (r: Result<String, Error>)
        ensures
            r is Ok,
            r->Ok_0@.len() == 40,
    {
        Ok(new_key_id())
    }

    /// Mock key wrapping: 256 zero bytes.
    pub fn wrap_key(&self, _key_id: &str, _wrapping_key_id: &str) -> (r: Result<Vec<u8>, Error>)
        ensures
            r is Ok,
            r->Ok_0@.len() == 256,
            all_zero(r->Ok_0@),
    {
        let mut out: Vec<u8> = Vec::new();
        let mut i: usize = 0;
        while i < 256
            invariant
                out@.len() == i,
                i <= 256,
                all_zero(out@),
            decreases 256 - i,
        {
            out.push(0u8);
            i = i + 1;
        }
        Ok(out)
    }

    /// Mock key unwrapping: a fresh identifier.
    pub fn unwrap_key(
        &self,
        _wrapped_key: &[u8],
        _wrapping_key_id: &str,
        _key_type: KeyType,
    ) -> (r: Result<String, Error>)
        ensures
            r is Ok,
            r->Ok_0@.len() == 40,
    {
        Ok(new_key_id())
    }
}

/// AWS CloudHSM service: configuration-validated custody over the client.
#[derive(Debug)]
pub struct AwsCloudHsmService {
    config: Config,
    client: Client,
    cluster_id: String,
    hsm_user: String,
    hsm_password: String,
}

impl AwsCloudHsmService {
    /// The configured cluster identifier, at the specification level.
    pub closed spec fn spec_cluster_id(&self) -> Seq<char> {
        self.cluster_id@
    }

    /// Create the service, requiring cluster identifier, user and password
    /// to be configured.
    pub fn new(config: &Config) -> (r: Result<Self, Error>)
        ensures
            r is Ok <==> config.aws_cloudhsm_cluster_id is Some && config.aws_cloudhsm_user is Some
                && config.aws_cloudhsm_password is Some,
            r is Err ==> r->Err_0 is Configuration,
            r is Ok ==> (match config.aws_cloudhsm_cluster_id {
                Option::Some(c) => r->Ok_0.spec_cluster_id() == c@,
                Option::None => false,
            }),
    {
        let cluster_id = match &config.aws_cloudhsm_cluster_id {
            Option::Some(c) => c.clone(),
            Option::None => {
                return Err(
                    Error::Configuration("AWS CloudHSM cluster ID not configured".to_owned()),
                );
            },
        };
        let hsm_user = match &config.aws_cloudhsm_user {
            Option::Some(u) => u.clone(),
            Option::None => {
                return Err(Error::Configuration("AWS CloudHSM user not configured".to_owned()));
            },
        };
        let hsm_password = match &config.aws_cloudhsm_password {
            Option::Some(p) => p.clone(),
            Option::None => {
                return Err(
                    Error::Configuration("AWS CloudHSM password not configured".to_owned()),
                );
            },
        };
        let client = match Client::new() {
            Ok(c) => c,
            Err(e) => {
                return Err(e);
            },
        };
        Ok(
            AwsCloudHsmService {
                config: config.clone(),
                client,
                cluster_id,
                hsm_user,
                hsm_password,
            },
        )
    }
}

impl HsmService for AwsCloudHsmService {
    fn encrypt(&self, key_id: &str, data: &[u8]) -> Result<Vec<u8>, Error> {
        self.client.encrypt(key_id, data)
    }

    fn decrypt(&self, key_id: &str, encrypted_data: &[u8]) -> Result<Vec<u8>, Error> {
        self.client.decrypt(key_id, encrypted_data)
    }

    fn sign(&self, key_id: &str, data: &[u8]) -> Result<Vec<u8>, Error> {
        self.client.sign(key_id, data)
    }

    fn verify(&self, key_id: &str, data: &[u8], signature: &[u8]) -> Result<bool, Error> {
        self.client.verify(key_id, data, signature)
    }

    fn generate_key(&mut self, key_type: KeyType) -> Result<String, Error> {
        self.client.generate_key(key_type)
    }

    fn import_key(&mut self, key_type: KeyType, key_material: &[u8]) -> Result<String, Error> {
        self.client.import_key(key_type, key_material)
    }

    fn get_public_key(&self, key_id: &str) -> Result<Vec<u8>, Error> {
        self.client.get_public_key(key_id)
    }

    fn derive_key(&mut self, base_key_id: &str, info: &[u8]) -> Result<String, Error> {
        self.client.derive_key(base_key_id, info)
    }

    fn wrap_key(&self, key_id: &str, wrapping_key_id: &str) -> Result<Vec<u8>, Error> {
        self.client.wrap_key(key_id, wrapping_key_id)
    }

    fn unwrap_key(
        &mut self,
        wrapped_key: &[u8],
        wrapping_key_id: &str,
        key_type: KeyType,
    ) -> Result<String, Error> {
        self.client.unwrap_key(wrapped_key, wrapping_key_id, key_type)
    }
}

} // verus!
