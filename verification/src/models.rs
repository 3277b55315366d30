//! Data model of the payment gateway as seen by the secure-operations core:
//! tokenization requests and tokens, plus the plain descriptive types that
//! payment flows pass around.

use vstd::prelude::*;

verus! {

/// Request to tokenize sensitive data.
#[derive(Debug, Clone)]
pub struct TokenRequest {
    /// Type of token to create (for example `"card"`).
    pub token_type: String,
    /// Key/value data to tokenize, in serialization order.
    pub data: Vec<(String, String)>,
    /// Time-to-live in seconds; 3600 when absent.
    pub ttl: Option<u64>,
    /// Additional metadata, in serialization order.
    pub metadata: Vec<(String, String)>,
}

/// A token produced by the core. Immutable after creation; persistence and
/// expiry enforcement belong to the external storage collaborator.
#[derive(Debug, Clone)]
pub struct Token {
    /// Random 16-character alphanumeric identifier.
    pub id: String,
    /// Base64 encoding of the encrypted serialized request.
    pub data: String,
    /// Expiry as a Unix timestamp in seconds.
    pub expires_at: u64,
    /// Type of token, copied from the request.
    pub token_type: String,
    /// Creation time as a Unix timestamp in seconds.
    pub created_at: u64,
}

/// Details of the payment method behind a payment.
#[derive(Debug, Clone)]
pub enum PaymentMethodDetails {
    /// Credit or debit card.
    Card { number: String, exp_month: u8, exp_year: u16, cvc: String },
    /// Bank transfer.
    BankTransfer {
        account_number: String,
        routing_number: String,
        account_type: String,
        bank_name: Option<String>,
    },
    /// Mobile money.
    MobileMoney { phone_number: String, provider: String, country: String },
    /// Cryptocurrency.
    Crypto { currency: String, address: Option<String> },
    /// A previously issued payment token.
    Token { token: String },
}

/// Customer information attached to a payment.
#[derive(Debug, Clone)]
pub struct Customer {
    pub id: Option<String>,
    pub name: Option<String>,
    pub email: Option<String>,
    pub phone: Option<String>,
}

/// Postal address attached to a payment.
#[derive(Debug, Clone)]
pub struct Address {
    pub line1: String,
    pub line2: Option<String>,
    pub city: String,
    pub state: Option<String>,
    pub postal_code: String,
    pub country: String,
}

/// Lifecycle status of a transaction.
#[derive(Debug, Clone, Copy, PartialEq, Eq, Structural)]
pub enum TransactionStatus {
    Pending,
    Processing,
    Succeeded,
    Failed,
    Canceled,
    Refunded,
    PartiallyRefunded,
}

/// Settlement status of a transaction.
#[derive(Debug, Clone, Copy, PartialEq, Eq, Structural)]
pub enum SettlementStatus {
    Pending,
    InProgress,
    Completed,
    Failed,
}

} // verus!
