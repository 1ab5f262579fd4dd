//! A local wallet: a secp256k1 private key and the address it controls.

use crate::crypto::{
    address_of_key, is_valid_key, key_address, private_key_from_text, random_private_key,
    recovered_signer, sign_message_with_key, signature_of,
};
use crate::encoding::{hex_decoded, hex_encode, hex_lower};
use crate::error::WalletError;
use crate::primitives::Address;
use vstd::prelude::*;
use vstd::string::StringSliceAdditionalSpecFns;

verus! {

/// The message signed when no message is given.
pub const DEFAULT_SIGN_MESSAGE: &'static str = "Please sign to retrieve your encryption key";

/// A local wallet. Its address is the one its key controls.
#[derive(Debug, Clone)]
pub struct LocalEthWallet {
    /// The address that the key controls.
    pub address: Address,
    /// The 32-byte private key.
    pub key: Vec<u8>,
}

impl LocalEthWallet {
    /// The address belongs to the key.
    pub open spec fn wf(&self) -> bool {
        self.address@ == key_address(self.key@)
    }

    fn from_key(key: Vec<u8>) -> (r: Result<Self, WalletError>)
        ensures
            r matches Ok(w) ==> w.wf() && w.key@ == key@,
            r matches Err(e) ==> e is SigningError,
            is_valid_key(key@) ==> r is Ok,
    {
        match address_of_key(key.as_slice()) {
            Ok(address) => Ok(LocalEthWallet { address, key }),
            Err(e) => Err(WalletError::SigningError(e)),
        }
    }

    /// A wallet from the hexadecimal text of a private key, with or without
    /// `0x`: the text of 32 bytes that are a secp256k1 secret scalar.
    pub fn new(private_key: &str) -> (r: Result<Self, WalletError>)
        ensures
            r is Ok <==> (hex_decoded(private_key@) matches Some(b) && is_valid_key(b)),
            r matches Ok(w) ==> w.wf() && hex_decoded(private_key@) == Some(w.key@),
            r matches Err(e) ==> e is SigningError,
    {
        match private_key_from_text(private_key) {
            Ok(key) => LocalEthWallet::from_key(key),
            Err(e) => Err(WalletError::SigningError(e)),
        }
    }

    /// A wallet with a fresh random key.
    pub fn random() -> (r: Result<Self, WalletError>)
        ensures
            r matches Ok(w) && w.wf() && is_valid_key(w.key@),
    {
        LocalEthWallet::from_key(random_private_key())
    }

    /// Signs a message the EIP-191 way: the key's 65-byte signature, which
    /// recovers to the wallet's address.
    pub fn sign_message(&self, message: &[u8]) -> (r: Result<Vec<u8>, WalletError>)
        requires
            self.wf(),
        ensures
            match r {
                Ok(sig) => signature_of(self.key@, message@) == Some(sig@) && sig@.len() == 65
                    && recovered_signer(sig@, message@) == Some(self.address@),
                Err(e) => signature_of(self.key@, message@) is None && e is SigningError,
            },
    {
        match sign_message_with_key(self.key.as_slice(), message) {
            Ok(sig) => Ok(sig),
            Err(e) => Err(WalletError::SigningError(e)),
        }
    }

    /// Signs a message and returns the lower-case hexadecimal text of the
    /// signature, without prefix.
    pub fn sign_message_hex(&self, message: &[u8]) -> (r: Result<String, WalletError>)
        requires
            self.wf(),
        ensures
            match r {
                Ok(h) => signature_of(self.key@, message@) matches Some(sig) && h@ == hex_lower(sig)
                    && sig.len() == 65 && recovered_signer(sig, message@) == Some(self.address@),
                Err(e) => signature_of(self.key@, message@) is None && e is SigningError,
            },
    {
        match self.sign_message(message) {
            Ok(sig) => Ok(hex_encode(sig.as_slice())),
            Err(e) => Err(e),
        }
    }

    /// Signs the default message; hexadecimal text.
    pub fn sign_hex(&self) -> (r: Result<String, WalletError>)
        requires
            self.wf(),
        ensures
            match r {
                Ok(h) => signature_of(self.key@, DEFAULT_SIGN_MESSAGE.spec_bytes()) matches Some(sig)
                    && h@ == hex_lower(sig) && sig.len() == 65 && recovered_signer(
                    sig,
                    DEFAULT_SIGN_MESSAGE.spec_bytes(),
                ) == Some(self.address@),
                Err(e) => signature_of(self.key@, DEFAULT_SIGN_MESSAGE.spec_bytes()) is None
                    && e is SigningError,
            },
    {
        self.sign_message_hex(DEFAULT_SIGN_MESSAGE.as_bytes())
    }

    /// Signs the default message; raw bytes.
    pub fn sign(&self) -> (r: Result<Vec<u8>, WalletError>)
        requires
            self.wf(),
        ensures
            match r {
                Ok(sig) => signature_of(self.key@, DEFAULT_SIGN_MESSAGE.spec_bytes()) == Some(sig@)
                    && sig@.len() == 65 && recovered_signer(sig@, DEFAULT_SIGN_MESSAGE.spec_bytes())
                    == Some(self.address@),
                Err(e) => signature_of(self.key@, DEFAULT_SIGN_MESSAGE.spec_bytes()) is None
                    && e is SigningError,
            },
    {
        self.sign_message(DEFAULT_SIGN_MESSAGE.as_bytes())
    }
}

} // verus!
