//! Secure-operations core of a payment gateway: authenticated encryption,
//! signing, tokenization, key custody with primary/secondary failover, and a
//! hybrid classical + post-quantum key-exchange engine with a mandatory
//! rotation policy.

pub mod config;
pub mod crypto;
pub mod error;
pub mod hsm;
pub mod hsm_aws;
pub mod hsm_failover;
pub mod hsm_software;
pub mod hybrid;
pub mod models;
pub mod pqc;
pub mod primitives;
pub mod token_json;
pub mod wipe;

pub use error::{Error, ErrorKind};
