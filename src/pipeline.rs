//! The transaction pipeline's decisions: from a contract call to a confirmed
//! receipt, one step per answer from the chain. The caller performs each
//! action (a query, a signature, a submission, a wait) and hands back what
//! came of it; nothing is retried here.

use crate::error::ClientError;
use vstd::prelude::*;
use vstd::string::StringExecFns;

verus! {

/// Where a transaction stands.
#[derive(Debug, Clone, Copy, PartialEq, Eq)]
pub enum TxStage {
    AwaitNonce,
    AwaitGasEstimate,
    AwaitGasPrice,
    AwaitPriorityFee,
    AwaitSubmission,
    AwaitReceipt,
    Confirmed,
    Failed,
}

/// How far a stage is along; each step moves strictly forward.
pub open spec fn stage_rank(s: TxStage) -> nat {
    match s {
        TxStage::AwaitNonce => 0,
        TxStage::AwaitGasEstimate => 1,
        TxStage::AwaitGasPrice => 2,
        TxStage::AwaitPriorityFee => 3,
        TxStage::AwaitSubmission => 4,
        TxStage::AwaitReceipt => 5,
        TxStage::Confirmed => 6,
        TxStage::Failed => 6,
    }
}

pub open spec fn is_terminal(s: TxStage) -> bool {
    s == TxStage::Confirmed || s == TxStage::Failed
}

/// What the chain or the signer answered.
#[derive(Debug, Clone)]
pub enum TxEvent {
    /// The sender's next transaction nonce.
    Nonce(u64),
    /// The gas limit estimated for the fully populated call.
    GasEstimate(u64),
    /// The current gas price, taken as the maximum fee per gas.
    GasPrice(u128),
    /// The current priority fee per gas.
    PriorityFee(u128),
    /// The signed envelope was accepted by the node.
    Submitted,
    /// The receipt of the transaction arrived.
    Receipted,
    /// A chain query failed.
    RpcFailed(String),
    /// Signing the envelope failed.
    SigningFailed(String),
    /// Submitting the envelope failed.
    SubmissionFailed(String),
    /// Waiting for the receipt failed or timed out.
    ConfirmationFailed(String),
    /// The call reverted: while its gas was estimated, or in its receipt.
    Reverted(String),
}

/// What the caller is to do next.
#[derive(Debug)]
pub enum TxAction {
    QueryNonce,
    EstimateGas { nonce: u64 },
    QueryGasPrice,
    QueryPriorityFee,
    /// Build the envelope with these parameters, sign it and submit it.
    SignAndSubmit {
        nonce: u64,
        gas_limit: u64,
        max_fee_per_gas: u128,
        max_priority_fee_per_gas: u128,
    },
    AwaitReceipt,
    /// The transaction is confirmed, or failed with this error.
    Finish(Result<(), ClientError>),
    /// The pipeline has finished; there is nothing to do.
    Idle,
}

/// The state of one transaction on its way to the chain.
#[derive(Debug, Clone, Copy)]
pub struct TxPipeline {
    pub stage: TxStage,
    pub nonce: u64,
    pub gas_limit: u64,
    pub max_fee_per_gas: u128,
    pub max_priority_fee_per_gas: u128,
}

/// The text of the error for an answer that the stage did not ask for.
pub const UNEXPECTED_EVENT: &'static str = "unexpected answer for the pending step";

impl TxPipeline {
    /// A new transaction: its first step is to query the sender's nonce.
    pub fn start() -> (r: (TxPipeline, TxAction))
        ensures
            r.0.stage == TxStage::AwaitNonce,
            r.1 is QueryNonce,
    {
        (
            TxPipeline {
                stage: TxStage::AwaitNonce,
                nonce: 0,
                gas_limit: 0,
                max_fee_per_gas: 0,
                max_priority_fee_per_gas: 0,
            },
            TxAction::QueryNonce,
        )
    }

    /// Takes the answer to the pending step and returns the next one.
    pub fn step(&mut self, event: TxEvent) -> (r: TxAction)
        ensures
            is_terminal(old(self).stage) ==> *final(self) == *old(self) && r is Idle,
            !is_terminal(old(self).stage) ==> stage_rank(final(self).stage) > stage_rank(
                old(self).stage,
            ),
            r is SignAndSubmit ==> old(self).stage == TxStage::AwaitPriorityFee,
            match (old(self).stage, event) {
                (TxStage::AwaitNonce, TxEvent::Nonce(n)) => *final(self) == (TxPipeline {
                    stage: TxStage::AwaitGasEstimate,
                    nonce: n,
                    ..*old(self)
                }) && r == (TxAction::EstimateGas { nonce: n }),
                (TxStage::AwaitGasEstimate, TxEvent::GasEstimate(g)) => *final(self) == (
                TxPipeline { stage: TxStage::AwaitGasPrice, gas_limit: g, ..*old(self) })
                    && r is QueryGasPrice,
                (TxStage::AwaitGasPrice, TxEvent::GasPrice(p)) => *final(self) == (TxPipeline {
                    stage: TxStage::AwaitPriorityFee,
                    max_fee_per_gas: p,
                    ..*old(self)
                }) && r is QueryPriorityFee,
                (TxStage::AwaitPriorityFee, TxEvent::PriorityFee(f)) => *final(self) == (
                TxPipeline {
                    stage: TxStage::AwaitSubmission,
                    max_priority_fee_per_gas: f,
                    ..*old(self)
                }) && r == (TxAction::SignAndSubmit {
                    nonce: old(self).nonce,
                    gas_limit: old(self).gas_limit,
                    max_fee_per_gas: old(self).max_fee_per_gas,
                    max_priority_fee_per_gas: f,
                }),
                (TxStage::AwaitSubmission, TxEvent::Submitted) => *final(self) == (TxPipeline {
                    stage: TxStage::AwaitReceipt,
                    ..*old(self)
                }) && r is AwaitReceipt,
                (TxStage::AwaitReceipt, TxEvent::Receipted) => *final(self) == (TxPipeline {
                    stage: TxStage::Confirmed,
                    ..*old(self)
                }) && r == TxAction::Finish(Ok(())),
                (TxStage::AwaitNonce, TxEvent::RpcFailed(m))
                | (TxStage::AwaitGasEstimate, TxEvent::RpcFailed(m))
                | (TxStage::AwaitGasPrice, TxEvent::RpcFailed(m))
                | (TxStage::AwaitPriorityFee, TxEvent::RpcFailed(m)) => final(self).stage
                    == TxStage::Failed && r == TxAction::Finish(Err(ClientError::ChainError(m))),
                (TxStage::AwaitGasEstimate, TxEvent::Reverted(m))
                | (TxStage::AwaitReceipt, TxEvent::Reverted(m)) => final(self).stage
                    == TxStage::Failed && r == TxAction::Finish(
                    Err(ClientError::ContractCallError(m)),
                ),
                (TxStage::AwaitSubmission, TxEvent::SubmissionFailed(m)) => final(self).stage
                    == TxStage::Failed && r == TxAction::Finish(
                    Err(ClientError::TransactionError(m)),
                ),
                (TxStage::AwaitSubmission, TxEvent::SigningFailed(m)) => final(self).stage
                    == TxStage::Failed && r == TxAction::Finish(Err(ClientError::SigningError(m))),
                (TxStage::AwaitReceipt, TxEvent::ConfirmationFailed(m)) => final(self).stage
                    == TxStage::Failed && r == TxAction::Finish(
                    Err(ClientError::TransactionError(m)),
                ),
                (s, _) => !is_terminal(s) ==> final(self).stage == TxStage::Failed
                    && r matches TxAction::Finish(Err(ClientError::TransactionError(_))),
            },
    {
        match (self.stage, event) {
            (TxStage::Confirmed, _) | (TxStage::Failed, _) => TxAction::Idle,
            (TxStage::AwaitNonce, TxEvent::Nonce(n)) => {
                self.nonce = n;
                self.stage = TxStage::AwaitGasEstimate;
                TxAction::EstimateGas { nonce: n }
            },
            (TxStage::AwaitGasEstimate, TxEvent::GasEstimate(g)) => {
                self.gas_limit = g;
                self.stage = TxStage::AwaitGasPrice;
                TxAction::QueryGasPrice
            },
            (TxStage::AwaitGasPrice, TxEvent::GasPrice(p)) => {
                self.max_fee_per_gas = p;
                self.stage = TxStage::AwaitPriorityFee;
                TxAction::QueryPriorityFee
            },
            (TxStage::AwaitPriorityFee, TxEvent::PriorityFee(f)) => {
                self.max_priority_fee_per_gas = f;
                self.stage = TxStage::AwaitSubmission;
                TxAction::SignAndSubmit {
                    nonce: self.nonce,
                    gas_limit: self.gas_limit,
                    max_fee_per_gas: self.max_fee_per_gas,
                    max_priority_fee_per_gas: f,
                }
            },
            (TxStage::AwaitSubmission, TxEvent::Submitted) => {
                self.stage = TxStage::AwaitReceipt;
                TxAction::AwaitReceipt
            },
            (TxStage::AwaitReceipt, TxEvent::Receipted) => {
                self.stage = TxStage::Confirmed;
                TxAction::Finish(Ok(()))
            },
            (TxStage::AwaitNonce, TxEvent::RpcFailed(m))
            | (TxStage::AwaitGasEstimate, TxEvent::RpcFailed(m))
            | (TxStage::AwaitGasPrice, TxEvent::RpcFailed(m))
            | (TxStage::AwaitPriorityFee, TxEvent::RpcFailed(m)) => {
                self.stage = TxStage::Failed;
                TxAction::Finish(Err(ClientError::ChainError(m)))
            },
            (TxStage::AwaitGasEstimate, TxEvent::Reverted(m))
            | (TxStage::AwaitReceipt, TxEvent::Reverted(m)) => {
                self.stage = TxStage::Failed;
                TxAction::Finish(Err(ClientError::ContractCallError(m)))
            },
            (TxStage::AwaitSubmission, TxEvent::SubmissionFailed(m)) => {
                self.stage = TxStage::Failed;
                TxAction::Finish(Err(ClientError::TransactionError(m)))
            },
            (TxStage::AwaitSubmission, TxEvent::SigningFailed(m)) => {
                self.stage = TxStage::Failed;
                TxAction::Finish(Err(ClientError::SigningError(m)))
            },
            (TxStage::AwaitReceipt, TxEvent::ConfirmationFailed(m)) => {
                self.stage = TxStage::Failed;
                TxAction::Finish(Err(ClientError::TransactionError(m)))
            },
            _ => {
                self.stage = TxStage::Failed;
                TxAction::Finish(
                    Err(ClientError::TransactionError(String::from_str(UNEXPECTED_EVENT))),
                )
            },
        }
    }
}

/// Consecutive stages as `step` moves them: forward, or unchanged once
/// finished.
pub open spec fn is_step_sequence(stages: Seq<TxStage>) -> bool {
    forall|i: int|
        0 <= i < stages.len() - 1 ==> stage_rank(#[trigger] stages[i + 1]) > stage_rank(stages[i])
            || (is_terminal(stages[i]) && stages[i + 1] == stages[i])
}

proof fn lemma_stages_advance(stages: Seq<TxStage>, i: int, j: int)
    requires
        is_step_sequence(stages),
        0 <= i < j < stages.len(),
        !is_terminal(stages[i]),
    ensures
        stage_rank(stages[j]) > stage_rank(stages[i]),
    decreases j - i,
{
    if j > i + 1 {
        lemma_stages_advance(stages, i, j - 1);
        let k = j - 1;
        assert(stage_rank(stages[k + 1]) > stage_rank(stages[k]) || (is_terminal(stages[k])
            && stages[k + 1] == stages[k]));
    } else {
        assert(stage_rank(stages[i + 1]) > stage_rank(stages[i]) || (is_terminal(stages[i])
            && stages[i + 1] == stages[i]));
    }
}

/// At most one transaction is broadcast per pipeline: `step` asks for a
/// submission only from `AwaitPriorityFee`, and along the stages that its
/// steps pass through that stage occurs at most once.
pub proof fn lemma_single_submission(stages: Seq<TxStage>, i: int, j: int)
    requires
        is_step_sequence(stages),
        0 <= i < j < stages.len(),
        stages[i] == TxStage::AwaitPriorityFee,
    ensures
        stages[j] != TxStage::AwaitPriorityFee,
{
    lemma_stages_advance(stages, i, j);
}

} // verus!
