//! Client-side settlement and attestation protocol for a decentralized
//! compute marketplace: account and job models, signed settlement requests,
//! their transport headers and their validation against on-chain state.

pub mod attestation;
pub mod contracts;
pub mod crypto;
pub mod encoding;
pub mod error;
pub mod job;
pub mod pipeline;
pub mod primitives;
pub mod prompt;
pub mod registry;
pub mod request;
pub mod settlement;
pub mod wallet;

pub use contracts::{
    Account, ContractConfig, FileResponse as File, NodeInfo, NodeStatus, Permission, Proof,
    ProofData, Refund, Settlement, SettlementData, User,
};
pub use error::{ClientError, ValidationError, WalletError};
pub use job::{Job, JobAction, JobStatus, NodeAction};
pub use primitives::{Address, U256};
pub use request::{
    RequestType, FILE_ID_HEADER, NONCE_HEADER, SIGNATURE_HEADER, TOKEN_ID_HEADER, USER_HEADER,
};
pub use settlement::{SettlementRequest, SettlementSignature};
pub use wallet::LocalEthWallet;
