//! Signed attestations: proofs of verified computation over a file, and the
//! settlement claims that a node submits for metered usage.

use crate::contracts::{Proof, ProofData, Settlement, SettlementData};
use crate::crypto::{address_word, be_bytes, keccak, keccak256, recovered_signer, signature_of};
use crate::encoding::hex_lower;
use crate::error::ClientError;
use crate::primitives::U256;
use crate::wallet::LocalEthWallet;
use vstd::prelude::*;
use vstd::string::StringExecFns;
use vstd::utf8::encode_utf8;

verus! {

/// A number as one ABI word, big-endian.
pub open spec fn uint_word(n: nat) -> Seq<u8> {
    be_bytes(n, 32)
}

/// The zero bytes that fill `n` bytes up to a whole number of words.
pub open spec fn padding_len(n: nat) -> nat {
    if n % 32 == 0 {
        0
    } else {
        (32 - n % 32) as nat
    }
}

/// Dynamic bytes in ABI form: the length as a word, then the bytes,
/// zero-padded to a whole number of words.
pub open spec fn dynamic_bytes(b: Seq<u8>) -> Seq<u8> {
    uint_word(b.len()) + b + Seq::new(padding_len(b.len()), |i: int| 0u8)
}

/// The ABI encoding of proof data, the dynamic tuple
/// `(uint256 id, uint256 score, string fileUrl, string proofUrl)`: an offset
/// word, the four head words, then the two strings.
pub open spec fn proof_data_encoding(
    id: nat,
    score: nat,
    file_url: Seq<u8>,
    proof_url: Seq<u8>,
) -> Seq<u8> {
    let f = dynamic_bytes(file_url);
    uint_word(32) + uint_word(id) + uint_word(score) + uint_word(128) + uint_word(128 + f.len())
        + f + dynamic_bytes(proof_url)
}

/// The ABI encoding of settlement data, the dynamic tuple
/// `(string id, address user, uint256 cost, uint256 nonce, bytes userSignature)`:
/// an offset word, the five head words, then the string and the bytes.
pub open spec fn settlement_data_encoding(
    id: Seq<u8>,
    user: Seq<u8>,
    cost: nat,
    nonce: nat,
    user_signature: Seq<u8>,
) -> Seq<u8> {
    let i = dynamic_bytes(id);
    uint_word(32) + uint_word(160) + address_word(user) + uint_word(cost) + uint_word(nonce)
        + uint_word(160 + i.len()) + i + dynamic_bytes(user_signature)
}

/// Relies on alloy's `SolType::abi_encode` for
/// `(uint256, uint256, string, string)`, the layout of `ProofData`.
#[verifier::external_body]
fn abi_encode_proof_data(data: &ProofData) -> (r: Vec<u8>)
    ensures
        r@ == proof_data_encoding(
            data.id@,
            data.score@,
            encode_utf8(data.file_url@),
            encode_utf8(data.proof_url@),
        ),
{
    <(
        alloy::sol_types::sol_data::Uint<256>,
        alloy::sol_types::sol_data::Uint<256>,
        alloy::sol_types::sol_data::String,
        alloy::sol_types::sol_data::String,
    ) as alloy::sol_types::SolType>::abi_encode(
        &(
            alloy::primitives::U256::from_limbs(data.id.limbs),
            alloy::primitives::U256::from_limbs(data.score.limbs),
            data.file_url.clone(),
            data.proof_url.clone(),
        ),
    )
}

/// Relies on alloy's `SolType::abi_encode` for
/// `(string, address, uint256, uint256, bytes)`, the layout of `SettlementData`.
#[verifier::external_body]
fn abi_encode_settlement_data(data: &SettlementData) -> (r: Vec<u8>)
    ensures
        r@ == settlement_data_encoding(
            encode_utf8(data.id@),
            data.user@,
            data.cost@,
            data.nonce@,
            data.user_signature@,
        ),
{
    <(
        alloy::sol_types::sol_data::String,
        alloy::sol_types::sol_data::Address,
        alloy::sol_types::sol_data::Uint<256>,
        alloy::sol_types::sol_data::Uint<256>,
        alloy::sol_types::sol_data::Bytes,
    ) as alloy::sol_types::SolType>::abi_encode(
        &(
            data.id.clone(),
            alloy::primitives::Address::from(data.user.bytes),
            alloy::primitives::U256::from_limbs(data.cost.limbs),
            alloy::primitives::U256::from_limbs(data.nonce.limbs),
            alloy::primitives::Bytes::from(data.user_signature.clone()),
        ),
    )
}

impl ProofData {
    /// The ABI encoding of the proof data.
    pub fn abi_encode(&self) -> (r: Vec<u8>)
        ensures
            r@ == proof_data_encoding(
                self.id@,
                self.score@,
                encode_utf8(self.file_url@),
                encode_utf8(self.proof_url@),
            ),
    {
        abi_encode_proof_data(self)
    }
}

impl SettlementData {
    /// The ABI encoding of the settlement data.
    pub fn abi_encode(&self) -> (r: Vec<u8>)
        ensures
            r@ == settlement_data_encoding(
                encode_utf8(self.id@),
                self.user@,
                self.cost@,
                self.nonce@,
                self.user_signature@,
            ),
    {
        abi_encode_settlement_data(self)
    }
}

/// The bytes that carry a signature in an attestation: the UTF-8 text `0x`
/// and the lower-case hexadecimal of the signature.
pub open spec fn attestation_bytes(sig: Seq<u8>) -> Seq<u8> {
    encode_utf8(seq!['0', 'x'] + hex_lower(sig))
}

/// `bytes` is the UTF-8 text `0x` and the lower-case hexadecimal of a
/// signature that recovers over `msg` to `signer`.
pub open spec fn is_attestation_by(bytes: Seq<u8>, msg: Seq<u8>, signer: Seq<u8>) -> bool {
    exists|sig: Seq<u8>|
        #![trigger hex_lower(sig)]
        bytes == encode_utf8(seq!['0', 'x'] + hex_lower(sig)) && sig.len() == 65
            && recovered_signer(sig, msg) == Some(signer)
}

/// Signs the Keccak-256 digest of `encoded` and returns the signature as the
/// bytes of its `0x`-prefixed hexadecimal text.
fn attest(wallet: &LocalEthWallet, encoded: &Vec<u8>) -> (r: Result<Vec<u8>, ClientError>)
    requires
        wallet.wf(),
    ensures
        match r {
            Ok(b) => signature_of(wallet.key@, keccak(encoded@)) matches Some(sig) && b@
                == attestation_bytes(sig) && is_attestation_by(
                b@,
                keccak(encoded@),
                wallet.address@,
            ),
            Err(e) => signature_of(wallet.key@, keccak(encoded@)) is None && e is WalletError,
        },
{
    let message_hash = keccak256(encoded.as_slice());
    match wallet.sign_message_hex(message_hash.as_slice()) {
        Ok(hex) => {
            let mut text = String::from_str("0x");
            text.append(hex.as_str());
            let bytes = vstd::slice::slice_to_vec(text.as_str().as_bytes());
            proof {
                reveal_strlit("0x");
                let sig = signature_of(wallet.key@, message_hash@)->Some_0;
                assert(text@ == seq!['0', 'x'] + hex_lower(sig));
            }
            Ok(bytes)
        },
        Err(e) => Err(ClientError::WalletError(e)),
    }
}

/// The proof of a verification over a file: the data, with the wallet's
/// signature over the digest of its ABI encoding.
pub fn sign_proof_data(wallet: &LocalEthWallet, data: ProofData) -> (r: Result<
    Proof,
    ClientError,
>)
    requires
        wallet.wf(),
    ensures
        ({
            let msg = keccak(
                proof_data_encoding(
                    data.id@,
                    data.score@,
                    encode_utf8(data.file_url@),
                    encode_utf8(data.proof_url@),
                ),
            );
            &&& r is Ok <==> signature_of(wallet.key@, msg) is Some
            &&& r matches Ok(p) ==> p.data == data && p.signature@ == attestation_bytes(
                signature_of(wallet.key@, msg)->Some_0,
            ) && is_attestation_by(p.signature@, msg, wallet.address@)
            &&& r matches Err(e) ==> e is WalletError
        }),
{
    let encoded = data.abi_encode();
    let signature = attest(wallet, &encoded)?;
    Ok(Proof { signature, data })
}

/// The settlement claim of a node: the data, with the node's signature over
/// the digest of its ABI encoding.
pub fn sign_settlement_data(wallet: &LocalEthWallet, data: SettlementData) -> (r: Result<
    Settlement,
    ClientError,
>)
    requires
        wallet.wf(),
    ensures
        ({
            let msg = keccak(
                settlement_data_encoding(
                    encode_utf8(data.id@),
                    data.user@,
                    data.cost@,
                    data.nonce@,
                    data.user_signature@,
                ),
            );
            &&& r is Ok <==> signature_of(wallet.key@, msg) is Some
            &&& r matches Ok(s) ==> s.data == data && s.signature@ == attestation_bytes(
                signature_of(wallet.key@, msg)->Some_0,
            ) && is_attestation_by(s.signature@, msg, wallet.address@)
            &&& r matches Err(e) ==> e is WalletError
        }),
{
    let encoded = data.abi_encode();
    let signature = attest(wallet, &encoded)?;
    Ok(Settlement { signature, data })
}

/// The proof index that a reward request redeems: the one given, else the
/// first proof.
pub fn reward_proof_index(proof_index: Option<U256>) -> (r: U256)
    ensures
        r@ == match proof_index {
            Some(i) => i@,
            None => 1,
        },
{
    match proof_index {
        Some(i) => i,
        None => U256::from_u64(1),
    }
}

} // verus!
