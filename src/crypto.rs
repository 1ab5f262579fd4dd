//! Hashing, ABI encoding of the settlement tuple, and secp256k1 keys,
//! signatures and signer recovery.

use crate::encoding::hex_decoded;
use crate::primitives::Address;
use vstd::prelude::*;

verus! {

/// The Keccak-256 digest of some bytes.
pub uninterp spec fn keccak(data: Seq<u8>) -> Seq<u8>;

/// The address that belongs to a secp256k1 private key.
pub uninterp spec fn key_address(key: Seq<u8>) -> Seq<u8>;

/// The address recovered from a 65-byte signature over a message hashed the
/// EIP-191 way, or `None` where the bytes are no recoverable signature.
pub uninterp spec fn recovered_signer(sig: Seq<u8>, msg: Seq<u8>) -> Option<Seq<u8>>;

/// The EIP-191 signature that a secp256k1 private key makes of a message,
/// as 65 bytes `r || s || v`, or `None` where the key cannot sign. Signing is
/// deterministic (RFC 6979 nonces).
pub uninterp spec fn signature_of(key: Seq<u8>, msg: Seq<u8>) -> Option<Seq<u8>>;

/// The number that big-endian bytes stand for.
pub open spec fn be_value(b: Seq<u8>) -> nat
    decreases b.len(),
{
    if b.len() == 0 {
        0
    } else {
        be_value(b.drop_last()) * 256 + b.last() as nat
    }
}

/// The order of the secp256k1 group.
pub open spec fn secp256k1_order() -> nat {
    0xffff_ffff_ffff_ffff_ffff_ffff_ffff_fffe_baae_dce6_af48_a03b_bfd2_5e8c_d036_4141nat
}

/// 32 bytes whose big-endian value `k` is a secp256k1 secret scalar:
/// `0 < k < n`.
pub open spec fn is_valid_key(key: Seq<u8>) -> bool {
    key.len() == 32 && 0 < be_value(key) < secp256k1_order()
}

/// `n` modulo `256^len`, as `len` big-endian bytes.
pub open spec fn be_bytes(n: nat, len: nat) -> Seq<u8>
    decreases len,
{
    if len == 0 {
        seq![]
    } else {
        be_bytes(n / 256, (len - 1) as nat).push((n % 256) as u8)
    }
}

/// An address as one ABI word: twelve zero bytes, then the address.
pub open spec fn address_word(a: Seq<u8>) -> Seq<u8> {
    Seq::new(12, |i: int| 0u8) + a
}

/// The ABI encoding of the tuple `(uint256 nonce, address user, address node)`.
pub open spec fn settlement_tuple_bytes(nonce: u64, user: Seq<u8>, node: Seq<u8>) -> Seq<u8> {
    be_bytes(nonce as nat, 32) + address_word(user) + address_word(node)
}

/// Relies on alloy's keccak256.
#[verifier::external_body]
pub(crate) fn keccak256(data: &[u8]) -> (r: Vec<u8>)
    ensures
        r@ == keccak(data@),
        r@.len() == 32,
{
    alloy::primitives::keccak256(data).0.to_vec()
}

/// Relies on alloy's `SolType::abi_encode` for `(uint256, address, address)`:
/// a static tuple is its three 32-byte words, integers big-endian.
#[verifier::external_body]
pub(crate) fn abi_encode_settlement_tuple(nonce: u64, user: &Address, node: &Address) -> (r: Vec<
    u8,
>)
    ensures
        r@ == settlement_tuple_bytes(nonce, user@, node@),
{
    <(
        alloy::sol_types::sol_data::Uint<256>,
        alloy::sol_types::sol_data::Address,
        alloy::sol_types::sol_data::Address,
    ) as alloy::sol_types::SolType>::abi_encode(
        &(
            alloy::primitives::U256::from(nonce),
            alloy::primitives::Address::from(user.bytes),
            alloy::primitives::Address::from(node.bytes),
        ),
    )
}

/// Relies on `PrivateKeySigner::from_str` and `to_bytes`: the hexadecimal
/// text of 32 bytes that are a valid secp256k1 key, returned as those bytes.
#[verifier::external_body]
pub(crate) fn private_key_from_text(s: &str) -> (r: Result<Vec<u8>, String>)
    ensures
        r matches Ok(k) ==> hex_decoded(s@) == Some(k@) && is_valid_key(k@),
        r is Ok <==> (hex_decoded(s@) matches Some(b) && is_valid_key(b)),
{
    <alloy::signers::local::PrivateKeySigner as std::str::FromStr>::from_str(s).map(
        |k| k.to_bytes().0.to_vec(),
    ).map_err(|e| e.to_string())
}

/// Relies on `PrivateKeySigner::random`: a fresh secret scalar from the
/// thread's random source, returned as its 32 bytes.
#[verifier::external_body]
pub(crate) fn random_private_key() -> (r: Vec<u8>)
    ensures
        is_valid_key(r@),
{
    alloy::signers::local::PrivateKeySigner::random().to_bytes().0.to_vec()
}

/// Relies on `PrivateKeySigner::from_slice` and its `address`; a valid
/// 32-byte key is accepted.
#[verifier::external_body]
pub(crate) fn address_of_key(key: &[u8]) -> (r: Result<Address, String>)
    ensures
        r matches Ok(a) ==> a@ == key_address(key@),
        is_valid_key(key@) ==> r is Ok,
{
    alloy::signers::local::PrivateKeySigner::from_slice(key).map(
        |k| Address { bytes: k.address().0.0 },
    ).map_err(|e| e.to_string())
}

/// Relies on `PrivateKeySigner::from_slice` and `SignerSync::sign_message_sync`:
/// the key's deterministic 65-byte EIP-191 signature, which recovers over the
/// same message to the key's address.
#[verifier::external_body]
pub(crate) fn sign_message_with_key(key: &[u8], msg: &[u8]) -> (r: Result<Vec<u8>, String>)
    ensures
        match r {
            Ok(sig) => signature_of(key@, msg@) == Some(sig@) && sig@.len() == 65
                && recovered_signer(sig@, msg@) == Some(key_address(key@)),
            Err(_) => signature_of(key@, msg@) is None,
        },
{
    match alloy::signers::local::PrivateKeySigner::from_slice(key) {
        Ok(k) => alloy::signers::SignerSync::sign_message_sync(&k, msg).map(
            |sig| sig.as_bytes().to_vec(),
        ).map_err(|e| e.to_string()),
        Err(e) => Err(e.to_string()),
    }
}

/// Relies on `Signature::try_from` for 65 raw bytes and on
/// `Signature::recover_address_from_msg`.
#[verifier::external_body]
pub(crate) fn recover_signer_address(sig: &[u8], msg: &[u8]) -> (r: Result<Address, String>)
    ensures
        match r {
            Ok(a) => recovered_signer(sig@, msg@) == Some(a@),
            Err(_) => recovered_signer(sig@, msg@) is None,
        },
        sig@.len() != 65 ==> r is Err,
{
    match alloy::primitives::Signature::try_from(sig) {
        Ok(s) => s.recover_address_from_msg(msg).map(|a| Address { bytes: a.0.0 }).map_err(
            |e| e.to_string(),
        ),
        Err(e) => Err(e.to_string()),
    }
}

} // verus!
