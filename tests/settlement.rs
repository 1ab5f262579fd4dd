use lazai::request::{parse_request_headers, validate_account_and_signature, validate_request};
use lazai::{
    Account, Address, ClientError, LocalEthWallet, RequestType, SettlementRequest,
    SettlementSignature, ValidationError, ContractConfig, U256, NONCE_HEADER, SIGNATURE_HEADER,
    USER_HEADER,
};

const KEY_A: &str = "0xac0974bec39a17e36ba4a6b4d238ff944bacb478cbed5efcae784d7bf4f2ff80";
const KEY_B: &str = "59c6995e998f97a5a0044966f0945389dc9e86dae88c7a8412f4603b6b78690d";

fn wallet_a() -> LocalEthWallet {
    LocalEthWallet::new(KEY_A).unwrap()
}

fn wallet_b() -> LocalEthWallet {
    LocalEthWallet::new(KEY_B).unwrap()
}

fn node() -> Address {
    Address::from_bytes([0x22; 20])
}

fn account(user: Address, nonce: u64) -> Account {
    Account {
        user,
        node: node(),
        nonce: U256::from_u64(nonce),
        balance: U256::from_u64(1000),
        pending_refund: U256::from_u64(0),
        refunds: Vec::new(),
    }
}

fn signed(wallet: &LocalEthWallet, user: Address, nonce: u64) -> SettlementSignature {
    let request = SettlementRequest { nonce, user, node: node(), file_id: None };
    request.generate_signature(wallet).unwrap()
}

#[test]
fn wallet_address_from_known_key() {
    let w = wallet_a();
    assert_eq!(w.address.to_text(), "0xf39Fd6e51aad88F6F4ce6aB8827279cffFb92266");
    let w = wallet_b();
    assert_eq!(w.address.to_text(), "0x70997970C51812dc3A010C7d01b50e0d17dc79C8");
}

#[test]
fn wallet_rejects_malformed_key() {
    assert!(matches!(LocalEthWallet::new("not a key"), Err(lazai::WalletError::SigningError(_))));
}

#[test]
fn random_wallets_differ() {
    let a = LocalEthWallet::random().unwrap();
    let b = LocalEthWallet::random().unwrap();
    assert!(a.address != b.address);
    assert_eq!(a.key.len(), 32);
}

#[test]
fn abi_encoding_of_settlement_tuple() {
    let request = SettlementRequest {
        nonce: 5,
        user: Address::from_bytes([0x11; 20]),
        node: Address::from_bytes([0x22; 20]),
        file_id: None,
    };
    let mut expected = vec![0u8; 31];
    expected.push(5);
    expected.extend(vec![0u8; 12]);
    expected.extend(vec![0x11u8; 20]);
    expected.extend(vec![0u8; 12]);
    expected.extend(vec![0x22u8; 20]);
    assert_eq!(request.abi_encode(), expected);
}

#[test]
fn signature_is_prefixed_hex_of_65_bytes() {
    let w = wallet_a();
    let s = signed(&w, w.address, 5);
    assert!(s.signature.starts_with("0x"));
    assert_eq!(s.signature.len(), 2 + 130);
    assert!(s.signature[2..].chars().all(|c| c.is_ascii_hexdigit() && !c.is_ascii_uppercase()));
    assert_eq!(s.nonce, 5);
    assert!(s.user == w.address);
    assert!(s.file_id.is_none());
}

#[test]
fn signature_headers_carry_user_nonce_and_signature() {
    let w = wallet_a();
    let s = signed(&w, w.address, 5);
    let headers = s.to_request_headers();
    assert_eq!(headers.len(), 3);
    assert_eq!(headers[0], (USER_HEADER.to_string(), "0xf39Fd6e51aad88F6F4ce6aB8827279cffFb92266".to_string()));
    assert_eq!(headers[1], (NONCE_HEADER.to_string(), "5".to_string()));
    assert_eq!(headers[2], (SIGNATURE_HEADER.to_string(), s.signature.clone()));
}

#[test]
fn file_id_travels_as_its_own_header() {
    let w = wallet_a();
    let request = SettlementRequest {
        nonce: 7,
        user: w.address,
        node: node(),
        file_id: Some(U256::from_limbs([0, 1, 0, 0])),
    };
    let s = request.generate_signature(&w).unwrap();
    let headers = s.to_request_headers();
    assert_eq!(headers.len(), 4);
    assert_eq!(headers[3].0, "X-LazAI-File-ID");
    assert_eq!(headers[3].1, "18446744073709551616");
}

#[test]
fn round_trip_through_headers() {
    let w = wallet_a();
    let request = SettlementRequest { nonce: 5, user: w.address, node: node(), file_id: None };
    let s = request.generate_signature(&w).unwrap();
    let headers = s.to_request_headers();
    let claim = parse_request_headers(&headers).unwrap();
    assert!(claim.user == request.user);
    assert_eq!(claim.nonce, request.nonce);
    assert_eq!(claim.signature, s.signature);
    let rebuilt = SettlementRequest { nonce: claim.nonce, user: claim.user, node: node(), file_id: None };
    assert_eq!(rebuilt.abi_encode(), request.abi_encode());
    assert!(validate_request(&headers, &account(w.address, 0), &node()).is_ok());
}

#[test]
fn nonce_equal_to_account_nonce_is_rejected() {
    let w = wallet_a();
    let s = signed(&w, w.address, 10);
    let r = validate_account_and_signature(&account(w.address, 10), &node(), &w.address, 10, &s.signature);
    match r {
        Err(ClientError::ValidationError(ValidationError::StaleNonce { nonce, last })) => {
            assert_eq!(nonce, 10);
            assert_eq!(last.to_text(), "10");
        }
        other => panic!("unexpected {:?}", other),
    }
}

#[test]
fn next_nonce_with_valid_signature_is_accepted() {
    let w = wallet_a();
    let s = signed(&w, w.address, 11);
    let r = validate_account_and_signature(&account(w.address, 10), &node(), &w.address, 11, &s.signature);
    assert!(r.is_ok());
}

#[test]
fn next_nonce_signed_by_other_key_is_rejected() {
    let a = wallet_a();
    let b = wallet_b();
    let s = signed(&b, a.address, 11);
    let r = validate_account_and_signature(&account(a.address, 10), &node(), &a.address, 11, &s.signature);
    assert!(matches!(r, Err(ClientError::ValidationError(ValidationError::SignerMismatch))));
}

#[test]
fn lower_nonce_is_rejected_even_with_valid_signature() {
    let w = wallet_a();
    let s = signed(&w, w.address, 3);
    let r = validate_account_and_signature(&account(w.address, 10), &node(), &w.address, 3, &s.signature);
    assert!(matches!(r, Err(ClientError::ValidationError(ValidationError::StaleNonce { .. }))));
}

#[test]
fn account_of_another_user_is_rejected() {
    let w = wallet_a();
    let s = signed(&w, w.address, 11);
    let other = Address::from_bytes([0x33; 20]);
    let r = validate_account_and_signature(&account(other, 0), &node(), &w.address, 11, &s.signature);
    assert!(matches!(r, Err(ClientError::ValidationError(ValidationError::UnknownAccount))));
}

#[test]
fn signature_for_another_node_does_not_verify() {
    let w = wallet_a();
    let request = SettlementRequest { nonce: 11, user: w.address, node: Address::from_bytes([0x44; 20]), file_id: None };
    let s = request.generate_signature(&w).unwrap();
    let r = validate_account_and_signature(&account(w.address, 10), &node(), &w.address, 11, &s.signature);
    assert!(r.is_err());
}

#[test]
fn signature_for_another_nonce_does_not_verify() {
    let w = wallet_a();
    let s = signed(&w, w.address, 12);
    let r = validate_account_and_signature(&account(w.address, 10), &node(), &w.address, 11, &s.signature);
    assert!(r.is_err());
}

#[test]
fn flipped_signature_bit_does_not_verify() {
    let w = wallet_a();
    let s = signed(&w, w.address, 11);
    let mut bytes = s.signature.into_bytes();
    bytes[10] = if bytes[10] == b'0' { b'1' } else { b'0' };
    let flipped = String::from_utf8(bytes).unwrap();
    let r = validate_account_and_signature(&account(w.address, 10), &node(), &w.address, 11, &flipped);
    assert!(r.is_err());
}

#[test]
fn malformed_signature_is_rejected() {
    let w = wallet_a();
    let r = validate_account_and_signature(&account(w.address, 10), &node(), &w.address, 11, "0xzz");
    assert!(matches!(r, Err(ClientError::ValidationError(ValidationError::MalformedSignature))));
    let r = validate_account_and_signature(&account(w.address, 10), &node(), &w.address, 11, "0x1234");
    assert!(matches!(r, Err(ClientError::ValidationError(ValidationError::MalformedSignature))));
}

#[test]
fn validation_is_repeatable() {
    let w = wallet_a();
    let s = signed(&w, w.address, 11);
    let acc = account(w.address, 10);
    let first = validate_account_and_signature(&acc, &node(), &w.address, 11, &s.signature);
    let second = validate_account_and_signature(&acc, &node(), &w.address, 11, &s.signature);
    assert_eq!(format!("{:?}", first), format!("{:?}", second));
    let stale = signed(&w, w.address, 10);
    let first = validate_account_and_signature(&acc, &node(), &w.address, 10, &stale.signature);
    let second = validate_account_and_signature(&acc, &node(), &w.address, 10, &stale.signature);
    assert_eq!(format!("{:?}", first), format!("{:?}", second));
}

fn header(name: &str, value: &str) -> (String, String) {
    (name.to_string(), value.to_string())
}

#[test]
fn missing_headers_are_reported_in_order() {
    let w = wallet_a();
    let user = w.address.to_text();
    let r = parse_request_headers(&vec![]);
    assert!(matches!(r, Err(ClientError::ValidationError(ValidationError::MissingUser))));
    let r = parse_request_headers(&vec![header(USER_HEADER, &user)]);
    assert!(matches!(r, Err(ClientError::ValidationError(ValidationError::MissingNonce))));
    let r = parse_request_headers(&vec![header(USER_HEADER, &user), header(NONCE_HEADER, "3")]);
    assert!(matches!(r, Err(ClientError::ValidationError(ValidationError::MissingSignature))));
}

#[test]
fn malformed_user_and_nonce_are_rejected() {
    let r = parse_request_headers(&vec![header(USER_HEADER, "0x1234"), header(NONCE_HEADER, "3")]);
    assert!(matches!(r, Err(ClientError::ValidationError(ValidationError::MalformedUser))));
    let user = "0xf39fd6e51aad88f6f4ce6ab8827279cfffb92266";
    let r = parse_request_headers(&vec![header(USER_HEADER, user), header(NONCE_HEADER, "-3")]);
    assert!(matches!(r, Err(ClientError::ValidationError(ValidationError::MalformedNonce))));
    let r = parse_request_headers(&vec![header(USER_HEADER, user), header(NONCE_HEADER, "18446744073709551616")]);
    assert!(matches!(r, Err(ClientError::ValidationError(ValidationError::MalformedNonce))));
}

#[test]
fn header_parsing_accepts_any_case_and_plus_sign() {
    let user = "F39FD6E51AAD88F6F4CE6AB8827279CFFFB92266";
    let claim = parse_request_headers(&vec![
        header(USER_HEADER, user),
        header(NONCE_HEADER, "+42"),
        header(SIGNATURE_HEADER, "0xab"),
    ])
    .unwrap();
    assert!(claim.user == wallet_a().address);
    assert_eq!(claim.nonce, 42);
    assert_eq!(claim.signature, "0xab");
}

#[test]
fn later_header_wins() {
    let w = wallet_a();
    let claim = parse_request_headers(&vec![
        header(USER_HEADER, "0x0000000000000000000000000000000000000000"),
        header(USER_HEADER, &w.address.to_text()),
        header(NONCE_HEADER, "1"),
        header(SIGNATURE_HEADER, "0x"),
    ])
    .unwrap();
    assert!(claim.user == w.address);
}

#[test]
fn request_type_selects_account_contract() {
    let config = ContractConfig::testnet();
    assert!(RequestType::Query.account_contract(&config) == config.query_address);
    assert!(RequestType::Inference.account_contract(&config) == config.inference_address);
    assert!(RequestType::Training.account_contract(&config) == config.training_address);
}

#[test]
fn contract_configs() {
    let local = ContractConfig::local();
    assert_eq!(local.data_registry_address.to_text(), "0xEAd077726dC83ecF385e3763ed4A0A50E8Ac5AA0");
    let testnet = ContractConfig::testnet();
    assert_eq!(testnet.settlement_address.to_text(), "0xF1398c4Bb36245750393A2511dA8bF1F7828F979");
    let default = ContractConfig::default();
    assert!(default.inference_address == local.inference_address);
}

#[test]
fn address_text_round_trip() {
    let a = Address::parse("0xd8da6bf26964af9d7eed9e03e53415d37aa96045").unwrap();
    assert_eq!(a.to_text(), "0xd8dA6BF26964aF9D7eEd9e03E53415D37aA96045");
    let b = Address::parse(&a.to_text()).unwrap();
    assert!(a == b);
    assert!(Address::parse("0xd8da6bf26964af9d7eed9e03e53415d37aa960").is_err());
    assert!(Address::parse("0xd8da6bf26964af9d7eed9e03e53415d37aa9604g").is_err());
}

#[test]
fn u256_decimal_text() {
    assert_eq!(U256::from_u64(0).to_text(), "0");
    assert_eq!(U256::from_u64(u64::MAX).to_text(), "18446744073709551615");
    assert_eq!(
        U256::from_limbs([u64::MAX; 4]).to_text(),
        "115792089237316195423570985008687907853269984665640564039457584007913129639935"
    );
    assert!(U256::from_limbs([0, 1, 0, 0]).ge_u64(u64::MAX));
    assert!(!U256::from_u64(9).ge_u64(10));
    assert!(U256::from_u64(10).ge_u64(10));
}

#[test]
fn signing_with_unusable_key_is_a_signing_error() {
    let broken = LocalEthWallet { address: Address::zero(), key: vec![0u8; 32] };
    let request = SettlementRequest { nonce: 1, user: broken.address, node: node(), file_id: None };
    assert!(matches!(request.generate_signature(&broken), Err(ClientError::SigningError(_))));
    let data = lazai::ProofData {
        id: U256::from_u64(1),
        score: U256::from_u64(1),
        file_url: "a".to_string(),
        proof_url: "b".to_string(),
    };
    assert!(matches!(
        lazai::attestation::sign_proof_data(&broken, data),
        Err(ClientError::WalletError(lazai::WalletError::SigningError(_)))
    ));
}

#[test]
fn fresh_random_wallet_signs_nonce_five_request() {
    let w = LocalEthWallet::random().unwrap();
    let user = Address::parse("0x34d9E02F9bB4E4C8836e38DF4320D4a79106F194").unwrap();
    let node = Address::parse("0x815da22D880E3560bCEcc85b6e4938b30c8202C4").unwrap();
    let request = SettlementRequest { nonce: 5, user, node, file_id: None };
    let s = request.generate_signature(&w).unwrap();
    assert_eq!(s.nonce, 5);
    assert!(s.user == user);
    assert!(s.file_id.is_none());
    assert!(s.signature.starts_with("0x"));
    assert_eq!(s.signature.len(), 132);
}

#[test]
fn signature_is_the_wallets_signature_of_the_digest() {
    let w = wallet_a();
    let request = SettlementRequest { nonce: 9, user: w.address, node: node(), file_id: None };
    let s = request.generate_signature(&w).unwrap();
    let digest = alloy::primitives::keccak256(request.abi_encode());
    let hex = w.sign_message_hex(digest.as_slice()).unwrap();
    assert_eq!(s.signature, format!("0x{}", hex));
    let again = request.generate_signature(&w).unwrap();
    assert_eq!(again.signature, s.signature);
}

#[test]
fn sign_message_hex_is_hex_of_sign_message() {
    let w = wallet_a();
    let raw = w.sign_message(b"hello").unwrap();
    let hex = w.sign_message_hex(b"hello").unwrap();
    assert_eq!(hex, alloy::hex::encode(&raw));
    let recovered = alloy::primitives::Signature::try_from(raw.as_slice())
        .unwrap()
        .recover_address_from_msg(b"hello")
        .unwrap();
    assert_eq!(recovered.0 .0, w.address.bytes);
}

#[test]
fn out_of_range_key_is_rejected() {
    let order = "fffffffffffffffffffffffffffffffebaaedce6af48a03bbfd25e8cd0364141";
    assert!(LocalEthWallet::new(order).is_err());
    assert!(LocalEthWallet::new(&"00".repeat(32)).is_err());
    assert!(LocalEthWallet::new("0x01").is_err());
    assert!(LocalEthWallet::new(&format!("0x{}", "00".repeat(31) + "01")).is_ok());
}

#[test]
fn u256_successor_and_zero() {
    assert_eq!(U256::from_u64_successor(u64::MAX).to_text(), "18446744073709551616");
    assert_eq!(U256::from_u64_successor(41).to_text(), "42");
    assert!(U256::from_u64(0).is_zero());
    assert!(!U256::from_limbs([0, 0, 0, 1]).is_zero());
}
