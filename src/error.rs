//! Errors of the client and of its wallet.

use crate::primitives::U256;
use vstd::prelude::*;

verus! {

/// Why a wallet operation failed.
#[derive(Debug, Clone)]
pub enum WalletError {
    /// The key material was malformed or the key operation failed.
    SigningError(String),
    /// The environment held no usable key.
    VarError(String),
}

impl WalletError {
    /// The text that the failing operation reported.
    pub fn message(&self) -> (r: String)
        ensures
            match self {
                WalletError::SigningError(m) => r@ == m@,
                WalletError::VarError(m) => r@ == m@,
            },
    {
        match self {
            WalletError::SigningError(m) => m.clone(),
            WalletError::VarError(m) => m.clone(),
        }
    }
}

/// Why a settlement request was not accepted.
#[derive(Debug, Clone, Copy)]
pub enum ValidationError {
    /// No user header.
    MissingUser,
    /// No nonce header.
    MissingNonce,
    /// No signature header.
    MissingSignature,
    /// The user header is no address.
    MalformedUser,
    /// The nonce header is no `u64`.
    MalformedNonce,
    /// The loaded account belongs to another user: it does not exist, or the
    /// user is not authorized.
    UnknownAccount,
    /// The nonce is not greater than the account's last settled nonce.
    StaleNonce { nonce: u64, last: U256 },
    /// The signature is no hexadecimal text of a recoverable signature.
    MalformedSignature,
    /// The signature was made by another key than the claimed user's.
    SignerMismatch,
}

/// The error taxonomy of the client.
#[derive(Debug, Clone)]
pub enum ClientError {
    /// The chain RPC or network failed; retryable by the caller.
    ChainError(String),
    /// A transaction could not be built.
    TxBuildError(String),
    /// The wallet failed.
    WalletError(WalletError),
    /// An on-chain call reverted or returned an error value.
    ContractCallError(String),
    /// A key operation failed.
    SigningError(String),
    /// Submission or confirmation of a transaction failed.
    TransactionError(String),
    /// A settlement request failed validation.
    ValidationError(ValidationError),
}

} // verus!
