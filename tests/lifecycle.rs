use lazai::attestation::{reward_proof_index, sign_proof_data, sign_settlement_data};
use lazai::job::node_from_info;
use lazai::pipeline::{TxAction, TxEvent, TxPipeline, TxStage};
use lazai::prompt::{OpenAIPrompt, PromptMessage, PromptRole, PromptTokenizer};
use lazai::registry::{plan_file_registration, FileRegistration, FileRegistry};
use lazai::{
    Address, ClientError, Job, JobAction, JobStatus, LocalEthWallet, NodeAction, NodeInfo,
    NodeStatus, ProofData, SettlementData, U256,
};

const KEY: &str = "ac0974bec39a17e36ba4a6b4d238ff944bacb478cbed5efcae784d7bf4f2ff80";

fn job(status: JobStatus) -> Job {
    Job {
        file_id: U256::from_u64(1),
        bid_amount: U256::from_u64(100),
        status,
        added_timestamp: U256::from_u64(0),
        owner_address: Address::zero(),
        node_address: Address::zero(),
    }
}

#[test]
fn unsubmitted_job_cannot_be_completed() {
    let r = JobStatus::Unsubmitted.after(JobAction::Complete);
    assert!(matches!(r, Err(ClientError::ContractCallError(ref m)) if m == "InvalidJobStatus"));
    let mut j = job(JobStatus::Unsubmitted);
    assert!(matches!(j.apply(JobAction::Complete), Err(ClientError::ContractCallError(_))));
    assert_eq!(j.status, JobStatus::Unsubmitted);
}

#[test]
fn canceled_job_cannot_be_completed() {
    let mut j = job(JobStatus::Canceled);
    assert!(matches!(j.apply(JobAction::Complete), Err(ClientError::ContractCallError(_))));
    assert_eq!(j.status, JobStatus::Canceled);
}

#[test]
fn job_completes_through_submission() {
    let mut j = job(JobStatus::Unsubmitted);
    assert!(j.apply(JobAction::Submit).is_ok());
    assert_eq!(j.status, JobStatus::Submitted);
    assert!(j.apply(JobAction::Complete).is_ok());
    assert_eq!(j.status, JobStatus::Completed);
    assert!(j.apply(JobAction::Cancel).is_err());
    let mut k = job(JobStatus::Submitted);
    assert!(k.apply(JobAction::Cancel).is_ok());
    assert_eq!(k.status, JobStatus::Canceled);
    assert!(k.apply(JobAction::Submit).is_err());
}

#[test]
fn node_registration_cycle() {
    assert_eq!(NodeStatus::Unregistered.after(NodeAction::Add).unwrap(), NodeStatus::Active);
    assert_eq!(NodeStatus::Active.after(NodeAction::Remove).unwrap(), NodeStatus::Removed);
    assert_eq!(NodeStatus::Removed.after(NodeAction::Add).unwrap(), NodeStatus::Active);
    assert!(matches!(NodeStatus::Active.after(NodeAction::Add), Err(ClientError::ContractCallError(ref m)) if m == "NodeAlreadyAdded"));
    assert!(matches!(NodeStatus::Removed.after(NodeAction::Remove), Err(ClientError::ContractCallError(ref m)) if m == "NodeNotActive"));
}

fn info(url: &str) -> NodeInfo {
    NodeInfo {
        node_address: Address::from_bytes([7; 20]),
        url: url.to_string(),
        status: NodeStatus::Active,
        amount: U256::from_u64(0),
        jobs_count: U256::from_u64(0),
        public_key: "pk".to_string(),
    }
}

#[test]
fn empty_node_record_means_no_node() {
    assert!(node_from_info(info("")).is_none());
    let n = node_from_info(info("https://node")).unwrap();
    assert_eq!(n.url, "https://node");
}

#[test]
fn add_file_twice_returns_same_id() {
    let mut r = FileRegistry::new();
    let owner = Address::from_bytes([1; 20]);
    let url = "ipfs://a".to_string();
    let first = r.add_file(&url, owner);
    let second = r.add_file(&url, Address::from_bytes([2; 20]));
    assert_eq!(first.to_text(), "1");
    assert_eq!(second.to_text(), "1");
    assert_eq!(r.files_count().to_text(), "1");
    let other = r.add_file(&"ipfs://b".to_string(), owner);
    assert_eq!(other.to_text(), "2");
    assert_eq!(r.get_file_id_by_url(&url).to_text(), "1");
    assert_eq!(r.get_file_id_by_url(&"ipfs://c".to_string()).to_text(), "0");
    assert_eq!(r.files_count().to_text(), "2");
}

#[test]
fn reward_defaults_to_first_proof() {
    assert_eq!(reward_proof_index(None).to_text(), "1");
    assert_eq!(reward_proof_index(Some(U256::from_u64(4))).to_text(), "4");
}

#[test]
fn proof_is_signed_as_prefixed_hex_text() {
    let w = LocalEthWallet::new(KEY).unwrap();
    let data = ProofData {
        id: U256::from_u64(1),
        score: U256::from_u64(90),
        file_url: "ipfs://a".to_string(),
        proof_url: "ipfs://p".to_string(),
    };
    let p = sign_proof_data(&w, data).unwrap();
    assert_eq!(p.signature.len(), 132);
    assert_eq!(&p.signature[..2], b"0x");
    assert_eq!(p.data.file_url, "ipfs://a");
    let s = sign_settlement_data(
        &w,
        SettlementData {
            id: "chat-1".to_string(),
            user: w.address,
            cost: U256::from_u64(3),
            nonce: U256::from_u64(1),
            user_signature: vec![1, 2, 3],
        },
    )
    .unwrap();
    assert_eq!(s.signature.len(), 132);
    assert_ne!(s.signature, p.signature);
}

#[test]
fn wallet_signatures() {
    let w = LocalEthWallet::new(KEY).unwrap();
    let raw = w.sign().unwrap();
    assert_eq!(raw.len(), 65);
    let hex = w.sign_hex().unwrap();
    assert_eq!(hex.len(), 130);
    let again = w.sign_message_hex(b"Please sign to retrieve your encryption key").unwrap();
    assert_eq!(hex, again);
    let other = w.sign_message(b"other").unwrap();
    assert_ne!(other, raw);
}

#[test]
fn pipeline_reaches_receipt() {
    let (mut p, a) = TxPipeline::start();
    assert!(matches!(a, TxAction::QueryNonce));
    assert!(matches!(p.step(TxEvent::Nonce(7)), TxAction::EstimateGas { nonce: 7 }));
    assert!(matches!(p.step(TxEvent::GasEstimate(21000)), TxAction::QueryGasPrice));
    assert!(matches!(p.step(TxEvent::GasPrice(30)), TxAction::QueryPriorityFee));
    match p.step(TxEvent::PriorityFee(2)) {
        TxAction::SignAndSubmit { nonce, gas_limit, max_fee_per_gas, max_priority_fee_per_gas } => {
            assert_eq!((nonce, gas_limit, max_fee_per_gas, max_priority_fee_per_gas), (7, 21000, 30, 2));
        }
        other => panic!("unexpected {:?}", other),
    }
    assert!(matches!(p.step(TxEvent::Submitted), TxAction::AwaitReceipt));
    assert!(matches!(p.step(TxEvent::Receipted), TxAction::Finish(Ok(()))));
    assert_eq!(p.stage, TxStage::Confirmed);
    assert!(matches!(p.step(TxEvent::Receipted), TxAction::Idle));
}

#[test]
fn pipeline_errors_by_kind() {
    let (mut p, _) = TxPipeline::start();
    assert!(matches!(p.step(TxEvent::RpcFailed("down".to_string())), TxAction::Finish(Err(ClientError::ChainError(_)))));
    assert_eq!(p.stage, TxStage::Failed);

    let (mut p, _) = TxPipeline::start();
    p.step(TxEvent::Nonce(1));
    p.step(TxEvent::GasEstimate(1));
    p.step(TxEvent::GasPrice(1));
    p.step(TxEvent::PriorityFee(1));
    assert!(matches!(p.step(TxEvent::SigningFailed("bad key".to_string())), TxAction::Finish(Err(ClientError::SigningError(_)))));

    let (mut p, _) = TxPipeline::start();
    p.step(TxEvent::Nonce(1));
    p.step(TxEvent::GasEstimate(1));
    p.step(TxEvent::GasPrice(1));
    p.step(TxEvent::PriorityFee(1));
    p.step(TxEvent::Submitted);
    assert!(matches!(p.step(TxEvent::ConfirmationFailed("timeout".to_string())), TxAction::Finish(Err(ClientError::TransactionError(_)))));

    let (mut p, _) = TxPipeline::start();
    assert!(matches!(p.step(TxEvent::Submitted), TxAction::Finish(Err(ClientError::TransactionError(_)))));
}

struct WordCount;

impl PromptTokenizer for WordCount {
    fn count_tokens(&self, text: &str) -> u32 {
        text.split_whitespace().count() as u32
    }
}

#[test]
fn prompt_builds_messages_and_counts_tokens() {
    let mut p = OpenAIPrompt::new(Some(3), Some(1), WordCount);
    p.messages.push(PromptMessage { role: PromptRole::System, content: "be brief".to_string() });
    p.messages.push(PromptMessage { role: PromptRole::User, content: "hello there world".to_string() });
    let built = p.build_prompt();
    assert_eq!(built.len(), 2);
    assert_eq!(built[0], vec![("role".to_string(), "system".to_string()), ("content".to_string(), "be brief".to_string())]);
    assert_eq!(built[1][0].1, "user");
    // (3 + 1 + 2) + (3 + 1 + 3) + 3
    assert_eq!(p.total_prompt_tokens, Some(16));
    assert_eq!(p.built_prompt_hashmap.as_ref().unwrap().len(), 2);
    p.clear_built_prompt();
    assert!(p.built_prompt_hashmap.is_none());
    assert!(p.total_prompt_tokens.is_none());
    assert_eq!(p.messages.len(), 2);
}

#[test]
fn empty_prompt_counts_reply_priming() {
    let mut p = OpenAIPrompt::new(None, None, WordCount);
    assert!(p.build_prompt().is_empty());
    assert_eq!(p.total_prompt_tokens, Some(3));
}

fn word(n: u64) -> Vec<u8> {
    let mut w = vec![0u8; 24];
    w.extend(n.to_be_bytes());
    w
}

fn padded(b: &[u8]) -> Vec<u8> {
    let mut v = word(b.len() as u64);
    v.extend(b);
    while v.len() % 32 != 0 {
        v.push(0);
    }
    v
}

#[test]
fn proof_data_abi_encoding() {
    let data = ProofData {
        id: U256::from_u64(1),
        score: U256::from_u64(90),
        file_url: "ab".to_string(),
        proof_url: String::new(),
    };
    let mut expected = word(32);
    expected.extend(word(1));
    expected.extend(word(90));
    expected.extend(word(128));
    expected.extend(word(192));
    expected.extend(padded(b"ab"));
    expected.extend(padded(b""));
    assert_eq!(data.abi_encode(), expected);
}

#[test]
fn settlement_data_abi_encoding() {
    let user = Address::from_bytes([9; 20]);
    let id = "x".repeat(33);
    let data = SettlementData {
        id: id.clone(),
        user,
        cost: U256::from_u64(3),
        nonce: U256::from_u64(4),
        user_signature: vec![1, 2, 3],
    };
    let mut expected = word(32);
    expected.extend(word(160));
    let mut user_word = vec![0u8; 12];
    user_word.extend([9u8; 20]);
    expected.extend(user_word);
    expected.extend(word(3));
    expected.extend(word(4));
    expected.extend(word(160 + 96));
    expected.extend(padded(id.as_bytes()));
    expected.extend(padded(&[1, 2, 3]));
    assert_eq!(data.abi_encode(), expected);
}

#[test]
fn proof_signature_is_prefixed_hex_of_wallet_signature() {
    let w = LocalEthWallet::new(KEY).unwrap();
    let data = ProofData {
        id: U256::from_u64(2),
        score: U256::from_u64(7),
        file_url: "f".to_string(),
        proof_url: "p".to_string(),
    };
    let digest = alloy::primitives::keccak256(data.abi_encode());
    let hex = w.sign_message_hex(digest.as_slice()).unwrap();
    let p = sign_proof_data(&w, data).unwrap();
    assert_eq!(p.signature, format!("0x{}", hex).into_bytes());
}

#[test]
fn settlement_signature_is_prefixed_hex_of_wallet_signature() {
    let w = LocalEthWallet::new(KEY).unwrap();
    let data = SettlementData {
        id: "run-7".to_string(),
        user: w.address,
        cost: U256::from_u64(11),
        nonce: U256::from_u64(2),
        user_signature: vec![5; 65],
    };
    let digest = alloy::primitives::keccak256(data.abi_encode());
    let hex = w.sign_message_hex(digest.as_slice()).unwrap();
    let s = sign_settlement_data(&w, data).unwrap();
    assert_eq!(s.signature, format!("0x{}", hex).into_bytes());
}

#[test]
fn registration_plan_keeps_existing_id() {
    assert!(matches!(plan_file_registration(U256::from_u64(0)), FileRegistration::Register));
    match plan_file_registration(U256::from_u64(3)) {
        FileRegistration::Existing(id) => assert_eq!(id.to_text(), "3"),
        other => panic!("unexpected {:?}", other),
    }
}

#[test]
fn pipeline_reverts_and_submission_failures() {
    let (mut p, _) = TxPipeline::start();
    p.step(TxEvent::Nonce(1));
    assert!(matches!(p.step(TxEvent::Reverted("FileUrlAlreadyUsed".to_string())), TxAction::Finish(Err(ClientError::ContractCallError(_)))));

    let (mut p, _) = TxPipeline::start();
    p.step(TxEvent::Nonce(1));
    p.step(TxEvent::GasEstimate(1));
    p.step(TxEvent::GasPrice(1));
    p.step(TxEvent::PriorityFee(1));
    assert!(matches!(p.step(TxEvent::SubmissionFailed("refused".to_string())), TxAction::Finish(Err(ClientError::TransactionError(_)))));

    let (mut p, _) = TxPipeline::start();
    p.step(TxEvent::Nonce(1));
    p.step(TxEvent::GasEstimate(1));
    p.step(TxEvent::GasPrice(1));
    p.step(TxEvent::PriorityFee(1));
    p.step(TxEvent::Submitted);
    assert!(matches!(p.step(TxEvent::Reverted("InvalidJobStatus".to_string())), TxAction::Finish(Err(ClientError::ContractCallError(_)))));
}

#[test]
fn prompt_starts_with_default_concatenator() {
    let p = OpenAIPrompt::new(None, None, WordCount);
    assert!(matches!(p.concatenator, lazai::prompt::TextConcatenator::DoubleNewline));
}
