//! Settlement requests: the canonical signable tuple, its signature, and the
//! transport headers that carry a signed request to a node.

use crate::crypto::{
    abi_encode_settlement_tuple, keccak, keccak256, recovered_signer, settlement_tuple_bytes,
    signature_of,
};
use crate::encoding::{decimal_digits, hex_lower, same_up_to_case, u64_to_string};
use crate::error::ClientError;
use crate::primitives::{checksummed, Address, U256};
use crate::request::{FILE_ID_HEADER, NONCE_HEADER, SIGNATURE_HEADER, USER_HEADER};
use crate::wallet::LocalEthWallet;
use vstd::prelude::*;
use vstd::string::StringExecFns;

verus! {

/// The 32-byte message that a settlement signature covers: the Keccak-256
/// digest of the ABI tuple `(nonce, user, node)`.
pub open spec fn settlement_message(nonce: u64, user: Seq<u8>, node: Seq<u8>) -> Seq<u8> {
    keccak(settlement_tuple_bytes(nonce, user, node))
}

/// `text` is `0x` and the lower-case hexadecimal of a 65-byte signature that
/// recovers over `msg` to `signer`.
pub open spec fn is_signature_text_by(text: Seq<char>, msg: Seq<u8>, signer: Seq<u8>) -> bool {
    exists|sig: Seq<u8>|
        #![trigger hex_lower(sig)]
        text == seq!['0', 'x'] + hex_lower(sig) && sig.len() == 65 && recovered_signer(sig, msg)
            == Some(signer)
}

/// A view of header pairs as character sequences.
pub open spec fn headers_view(h: Seq<(String, String)>) -> Seq<(Seq<char>, Seq<char>)> {
    h.map_values(|p: (String, String)| (p.0@, p.1@))
}

/// A signed settlement request, ready for transport.
#[derive(Debug, Clone)]
pub struct SettlementSignature {
    pub user: Address,
    pub nonce: u64,
    /// `0x` and the hexadecimal signature.
    pub signature: String,
    pub file_id: Option<U256>,
}

/// The headers that carry a signed request: user, nonce and signature, then
/// the file id where there is one.
pub open spec fn signature_headers(s: SettlementSignature) -> Seq<(Seq<char>, Seq<char>)> {
    seq![
        (USER_HEADER@, checksummed(s.user@)),
        (NONCE_HEADER@, decimal_digits(s.nonce as nat)),
        (SIGNATURE_HEADER@, s.signature@),
    ] + match s.file_id {
        Some(f) => seq![(FILE_ID_HEADER@, decimal_digits(f@))],
        None => Seq::empty(),
    }
}

impl SettlementSignature {
    /// The transport headers of the signed request.
    pub fn to_request_headers(&self) -> (r: Vec<(String, String)>)
        ensures
            headers_view(r@) == signature_headers(*self),
            same_up_to_case(checksummed(self.user@), seq!['0', 'x'] + hex_lower(self.user@)),
    {
        let mut headers: Vec<(String, String)> = Vec::new();
        headers.push((String::from_str(USER_HEADER), self.user.to_text()));
        headers.push((String::from_str(NONCE_HEADER), u64_to_string(self.nonce)));
        headers.push((String::from_str(SIGNATURE_HEADER), self.signature.clone()));
        match &self.file_id {
            Some(file_id) => {
                headers.push((String::from_str(FILE_ID_HEADER), file_id.to_text()));
            },
            None => {},
        }
        assert(headers_view(headers@) =~= signature_headers(*self));
        headers
    }
}

/// A metered API call's claim: the user pays the node, under a nonce.
#[derive(Debug, Clone)]
pub struct SettlementRequest {
    pub nonce: u64,
    pub user: Address,
    pub node: Address,
    /// Travels beside the signature; it is not signed.
    pub file_id: Option<U256>,
}

impl SettlementRequest {
    /// The ABI encoding of `(uint256 nonce, address user, address node)`.
    pub fn abi_encode(&self) -> (r: Vec<u8>)
        ensures
            r@ == settlement_tuple_bytes(self.nonce, self.user@, self.node@),
    {
        abi_encode_settlement_tuple(self.nonce, &self.user, &self.node)
    }

    /// Signs the request with the wallet: the signature covers the hashed
    /// tuple `(nonce, user, node)` and is carried as `0x`-prefixed hex.
    pub fn generate_signature(&self, wallet: &LocalEthWallet) -> (r: Result<
        SettlementSignature,
        ClientError,
    >)
        requires
            wallet.wf(),
        ensures
            r is Ok <==> signature_of(
                wallet.key@,
                settlement_message(self.nonce, self.user@, self.node@),
            ) is Some,
            match r {
                Ok(s) => s.user == self.user && s.nonce == self.nonce && s.file_id == self.file_id
                    && s.signature@ == seq!['0', 'x'] + hex_lower(
                    signature_of(
                        wallet.key@,
                        settlement_message(self.nonce, self.user@, self.node@),
                    )->Some_0,
                ) && is_signature_text_by(
                    s.signature@,
                    settlement_message(self.nonce, self.user@, self.node@),
                    wallet.address@,
                ),
                Err(e) => e is SigningError,
            },
    {
        let encoded = self.abi_encode();
        let message_hash = keccak256(encoded.as_slice());
        match wallet.sign_message_hex(message_hash.as_slice()) {
            Ok(hex) => {
                let mut signature = String::from_str("0x");
                signature.append(hex.as_str());
                proof {
                    reveal_strlit("0x");
                    let sig = signature_of(wallet.key@, message_hash@)->Some_0;
                    assert(signature@ == seq!['0', 'x'] + hex_lower(sig));
                }
                Ok(
                    SettlementSignature {
                        user: self.user,
                        nonce: self.nonce,
                        signature,
                        file_id: self.file_id,
                    },
                )
            },
            Err(e) => Err(ClientError::SigningError(e.message())),
        }
    }
}

} // verus!
