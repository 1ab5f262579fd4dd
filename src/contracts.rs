//! The on-chain records that the client reads and writes, as plain values,
//! and the addresses of the contracts that hold them.

use crate::primitives::{Address, U256};
use vstd::prelude::*;

verus! {

// Contract addresses of the local devnet.
pub const DEFAULT_DATA_ANCHORING_TOKEN_CONTRACT_ADDRESS: [u8; 20] = [
    0x2e, 0xd3, 0x44, 0xc5, 0x86, 0x30, 0x3c, 0x98, 0xfc, 0x3c,
    0x6d, 0x5b, 0x42, 0xc5, 0x61, 0x6e, 0xd4, 0x2f, 0x9d, 0x9d,
];

pub const DEFAULT_VERIFIED_COMPUTING_CONTRACT_ADDRESS: [u8; 20] = [
    0x81, 0x5d, 0xa2, 0x2d, 0x88, 0x0e, 0x35, 0x60, 0xbc, 0xec,
    0xc8, 0x5b, 0x6e, 0x49, 0x38, 0xb3, 0x0c, 0x82, 0x02, 0xc4,
];

pub const DEFAULT_DATA_REGISTRY_CONTRACT_ADDRESS: [u8; 20] = [
    0xea, 0xd0, 0x77, 0x72, 0x6d, 0xc8, 0x3e, 0xcf, 0x38, 0x5e,
    0x37, 0x63, 0xed, 0x4a, 0x0a, 0x50, 0xe8, 0xac, 0x5a, 0xa0,
];

pub const DEFAULT_QUERY_CONTRACT_ADDRESS: [u8; 20] = [
    0xe7, 0x47, 0xfd, 0x70, 0x26, 0x9a, 0x8a, 0x54, 0x04, 0x03,
    0xdd, 0xe8, 0x02, 0xd6, 0x90, 0x6c, 0xb1, 0x8c, 0x9f, 0x50,
];

pub const DEFAULT_INFERENCE_CONTRACT_ADDRESS: [u8; 20] = [
    0xbb, 0x96, 0x9e, 0xaa, 0xfb, 0x3a, 0x71, 0x24, 0xb8, 0xdc,
    0xdf, 0x9a, 0x6d, 0x5c, 0xd5, 0xba, 0xa0, 0x38, 0x13, 0x61,
];

pub const DEFAULT_TRAINING_CONTRACT_ADDRESS: [u8; 20] = [
    0xb5, 0x78, 0xab, 0x78, 0xbb, 0x47, 0x80, 0xd9, 0x00, 0x7c,
    0xc8, 0x36, 0xb3, 0x58, 0x46, 0x84, 0x67, 0x81, 0x4b, 0x3e,
];

pub const DEFAULT_SETTLEMENT_CONTRACT_ADDRESS: [u8; 20] = [
    0xbe, 0x94, 0x64, 0x6a, 0x0c, 0x6c, 0x10, 0x32, 0xc2, 0x89,
    0xee, 0xa4, 0x71, 0x69, 0x79, 0x8e, 0x09, 0xdb, 0x52, 0x99,
];

pub const DEFAULT_LAZAI_IDAO_CONTRACT_ADDRESS: [u8; 20] = [
    0xea, 0x30, 0xba, 0x91, 0xf4, 0xdb, 0x33, 0xef, 0x03, 0x60,
    0xfc, 0x04, 0xd8, 0xe2, 0x01, 0x95, 0x44, 0x74, 0xdb, 0xd1,
];

// Contract addresses of the testnet.
pub const TESTNET_ADMIN_ADDRESS: [u8; 20] = [
    0x34, 0xd9, 0xe0, 0x2f, 0x9b, 0xb4, 0xe4, 0xc8, 0x83, 0x6e,
    0x38, 0xdf, 0x43, 0x20, 0xd4, 0xa7, 0x91, 0x06, 0xf1, 0x94,
];

pub const TESTNET_DATA_REGISTRY_CONTRACT_ADDRESS: [u8; 20] = [
    0xe7, 0x75, 0x3e, 0xeb, 0xca, 0x82, 0x84, 0x9d, 0x6b, 0x19,
    0xe6, 0x68, 0x9b, 0x35, 0x0f, 0x87, 0x31, 0x8a, 0x89, 0x98,
];

pub const TESTNET_VERIFIED_COMPUTING_CONTRACT_ADDRESS: [u8; 20] = [
    0x87, 0xe4, 0x3f, 0x24, 0xef, 0xc2, 0x28, 0x4f, 0xd2, 0xbb,
    0xf1, 0x1c, 0xc8, 0x0d, 0x6f, 0xcf, 0x3e, 0x0a, 0xd4, 0x74,
];

pub const TESTNET_DATA_ANCHORING_TOKEN_CONTRACT_ADDRESS: [u8; 20] = [
    0xd5, 0x9c, 0xdf, 0xfe, 0xb6, 0x5a, 0xcc, 0x53, 0x99, 0x94,
    0xe4, 0x1d, 0x0b, 0x40, 0xef, 0xf6, 0x1b, 0xe3, 0x71, 0x18,
];

pub const TESTNET_QUERY_CONTRACT_ADDRESS: [u8; 20] = [
    0x5d, 0x7f, 0xc5, 0xa0, 0x43, 0x28, 0xb9, 0x5c, 0xae, 0x01,
    0x7b, 0x66, 0x4a, 0x8e, 0x95, 0xfa, 0x25, 0xca, 0x3e, 0x98,
];

pub const TESTNET_INFERENCE_CONTRACT_ADDRESS: [u8; 20] = [
    0x69, 0xbd, 0x47, 0x25, 0x25, 0x10, 0x57, 0x39, 0x95, 0xb2,
    0x2a, 0xe2, 0x27, 0x56, 0x0e, 0x87, 0x9b, 0x19, 0x37, 0x38,
];

pub const TESTNET_TRAINING_CONTRACT_ADDRESS: [u8; 20] = [
    0x7e, 0x66, 0x46, 0xfe, 0xec, 0x69, 0xdf, 0x50, 0x1d, 0x94,
    0x2e, 0x16, 0xcb, 0xe2, 0xd1, 0x4b, 0x7b, 0xbe, 0xc8, 0x53,
];

pub const TESTNET_SETTLEMENT_CONTRACT_ADDRESS: [u8; 20] = [
    0xf1, 0x39, 0x8c, 0x4b, 0xb3, 0x62, 0x45, 0x75, 0x03, 0x93,
    0xa2, 0x51, 0x1d, 0xa8, 0xbf, 0x1f, 0x78, 0x28, 0xf9, 0x79,
];

/// A grant of access to a file: the account and the key encrypted for it.
#[derive(Debug, Clone)]
pub struct Permission {
    pub account: Address,
    pub key: String,
}

/// A registered pointer to externally stored data.
#[derive(Debug, Clone)]
pub struct FileResponse {
    pub id: U256,
    pub owner_address: Address,
    pub url: String,
    pub hash: String,
    pub proof_index: U256,
    pub reward_amount: U256,
}

/// The result of a verification over a file.
#[derive(Debug, Clone)]
pub struct ProofData {
    pub id: U256,
    pub score: U256,
    pub file_url: String,
    pub proof_url: String,
}

/// Proof data with the signature that binds it to its attestor.
#[derive(Debug, Clone)]
pub struct Proof {
    pub signature: Vec<u8>,
    pub data: ProofData,
}

/// The registration state of a compute node.
#[derive(Debug, Clone, Copy, PartialEq, Eq)]
pub enum NodeStatus {
    /// Never registered.
    Unregistered,
    Active,
    Removed,
}

/// A compute node as registered on chain.
#[derive(Debug, Clone)]
pub struct NodeInfo {
    pub node_address: Address,
    pub url: String,
    pub status: NodeStatus,
    pub amount: U256,
    pub jobs_count: U256,
    pub public_key: String,
}

/// A pending balance-retrieval request.
#[derive(Debug, Clone, Copy)]
pub struct Refund {
    pub index: U256,
    pub amount: U256,
    pub created_at: U256,
    pub processed: bool,
}

/// A requester's metered-usage relationship with one compute node.
#[derive(Debug, Clone)]
pub struct Account {
    pub user: Address,
    pub node: Address,
    /// The last settled nonce.
    pub nonce: U256,
    pub balance: U256,
    pub pending_refund: U256,
    pub refunds: Vec<Refund>,
}

/// The usage that a node claims for settlement.
#[derive(Debug, Clone)]
pub struct SettlementData {
    pub id: String,
    pub user: Address,
    pub cost: U256,
    pub nonce: U256,
    pub user_signature: Vec<u8>,
}

/// Settlement data with the node's signature over it.
#[derive(Debug, Clone)]
pub struct Settlement {
    pub signature: Vec<u8>,
    pub data: SettlementData,
}

/// One requester across all nodes.
#[derive(Debug, Clone)]
pub struct User {
    pub addr: Address,
    pub available_balance: U256,
    pub total_balance: U256,
    pub query_nodes: Vec<Address>,
    pub inference_nodes: Vec<Address>,
    pub training_nodes: Vec<Address>,
}

/// The addresses of the contracts that the client talks to.
#[derive(Debug, Clone, Copy)]
pub struct ContractConfig {
    pub data_registry_address: Address,
    pub verified_computing_address: Address,
    pub data_anchoring_token_address: Address,
    pub query_address: Address,
    pub inference_address: Address,
    pub training_address: Address,
    pub settlement_address: Address,
}

impl ContractConfig {
    /// The contracts of the local devnet.
    pub fn local() -> (r: Self)
        ensures
            r.data_registry_address.bytes == DEFAULT_DATA_REGISTRY_CONTRACT_ADDRESS,
            r.verified_computing_address.bytes == DEFAULT_VERIFIED_COMPUTING_CONTRACT_ADDRESS,
            r.data_anchoring_token_address.bytes == DEFAULT_DATA_ANCHORING_TOKEN_CONTRACT_ADDRESS,
            r.query_address.bytes == DEFAULT_QUERY_CONTRACT_ADDRESS,
            r.inference_address.bytes == DEFAULT_INFERENCE_CONTRACT_ADDRESS,
            r.training_address.bytes == DEFAULT_TRAINING_CONTRACT_ADDRESS,
            r.settlement_address.bytes == DEFAULT_SETTLEMENT_CONTRACT_ADDRESS,
    {
        ContractConfig {
            data_registry_address: Address::from_bytes(DEFAULT_DATA_REGISTRY_CONTRACT_ADDRESS),
            verified_computing_address: Address::from_bytes(
                DEFAULT_VERIFIED_COMPUTING_CONTRACT_ADDRESS,
            ),
            data_anchoring_token_address: Address::from_bytes(
                DEFAULT_DATA_ANCHORING_TOKEN_CONTRACT_ADDRESS,
            ),
            query_address: Address::from_bytes(DEFAULT_QUERY_CONTRACT_ADDRESS),
            inference_address: Address::from_bytes(DEFAULT_INFERENCE_CONTRACT_ADDRESS),
            training_address: Address::from_bytes(DEFAULT_TRAINING_CONTRACT_ADDRESS),
            settlement_address: Address::from_bytes(DEFAULT_SETTLEMENT_CONTRACT_ADDRESS),
        }
    }

    /// The contracts of the testnet.
    pub fn testnet() -> (r: Self)
        ensures
            r.data_registry_address.bytes == TESTNET_DATA_REGISTRY_CONTRACT_ADDRESS,
            r.verified_computing_address.bytes == TESTNET_VERIFIED_COMPUTING_CONTRACT_ADDRESS,
            r.data_anchoring_token_address.bytes == TESTNET_DATA_ANCHORING_TOKEN_CONTRACT_ADDRESS,
            r.query_address.bytes == TESTNET_QUERY_CONTRACT_ADDRESS,
            r.inference_address.bytes == TESTNET_INFERENCE_CONTRACT_ADDRESS,
            r.training_address.bytes == TESTNET_TRAINING_CONTRACT_ADDRESS,
            r.settlement_address.bytes == TESTNET_SETTLEMENT_CONTRACT_ADDRESS,
    {
        ContractConfig {
            data_registry_address: Address::from_bytes(TESTNET_DATA_REGISTRY_CONTRACT_ADDRESS),
            verified_computing_address: Address::from_bytes(
                TESTNET_VERIFIED_COMPUTING_CONTRACT_ADDRESS,
            ),
            data_anchoring_token_address: Address::from_bytes(
                TESTNET_DATA_ANCHORING_TOKEN_CONTRACT_ADDRESS,
            ),
            query_address: Address::from_bytes(TESTNET_QUERY_CONTRACT_ADDRESS),
            inference_address: Address::from_bytes(TESTNET_INFERENCE_CONTRACT_ADDRESS),
            training_address: Address::from_bytes(TESTNET_TRAINING_CONTRACT_ADDRESS),
            settlement_address: Address::from_bytes(TESTNET_SETTLEMENT_CONTRACT_ADDRESS),
        }
    }
}

impl Default for ContractConfig {
    /// The contracts of the local devnet.
    fn default() -> (r: Self)
        ensures
            r.data_registry_address.bytes == DEFAULT_DATA_REGISTRY_CONTRACT_ADDRESS,
            r.verified_computing_address.bytes == DEFAULT_VERIFIED_COMPUTING_CONTRACT_ADDRESS,
            r.data_anchoring_token_address.bytes == DEFAULT_DATA_ANCHORING_TOKEN_CONTRACT_ADDRESS,
            r.query_address.bytes == DEFAULT_QUERY_CONTRACT_ADDRESS,
            r.inference_address.bytes == DEFAULT_INFERENCE_CONTRACT_ADDRESS,
            r.training_address.bytes == DEFAULT_TRAINING_CONTRACT_ADDRESS,
            r.settlement_address.bytes == DEFAULT_SETTLEMENT_CONTRACT_ADDRESS,
    {
        ContractConfig::local()
    }
}

} // verus!
