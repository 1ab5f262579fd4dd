//! Life cycles of compute jobs and of compute nodes, with the transition
//! guards that the chain enforces.

use crate::contracts::{NodeInfo, NodeStatus};
use crate::error::ClientError;
use crate::primitives::{Address, U256};
use vstd::prelude::*;
use vstd::string::StringExecFns;

verus! {

/// The state of a compute job.
#[derive(Debug, Clone, Copy, PartialEq, Eq)]
pub enum JobStatus {
    /// Not submitted yet.
    Unsubmitted,
    Submitted,
    Completed,
    Canceled,
}

/// What can be done to a job.
#[derive(Debug, Clone, Copy, PartialEq, Eq)]
pub enum JobAction {
    Submit,
    Complete,
    Cancel,
}

/// The on-chain record of a proof or compute request.
#[derive(Debug, Clone, Copy)]
pub struct Job {
    pub file_id: U256,
    pub bid_amount: U256,
    pub status: JobStatus,
    pub added_timestamp: U256,
    pub owner_address: Address,
    pub node_address: Address,
}

/// The state a job moves to under an action, where the action is allowed:
/// only an unsubmitted job may be submitted, and only a submitted one
/// completed or canceled.
pub open spec fn job_next(status: JobStatus, action: JobAction) -> Option<JobStatus> {
    match (status, action) {
        (JobStatus::Unsubmitted, JobAction::Submit) => Some(JobStatus::Submitted),
        (JobStatus::Submitted, JobAction::Complete) => Some(JobStatus::Completed),
        (JobStatus::Submitted, JobAction::Cancel) => Some(JobStatus::Canceled),
        _ => None,
    }
}

/// The contract's error for a job in the wrong state.
pub const INVALID_JOB_STATUS: &'static str = "InvalidJobStatus";

impl JobStatus {
    /// The state after `action`, or the contract's rejection.
    pub fn after(self, action: JobAction) -> (r: Result<JobStatus, ClientError>)
        ensures
            match job_next(self, action) {
                Some(next) => r == Ok::<JobStatus, ClientError>(next),
                None => r matches Err(ClientError::ContractCallError(m)) && m@
                    == INVALID_JOB_STATUS@,
            },
    {
        match (self, action) {
            (JobStatus::Unsubmitted, JobAction::Submit) => Ok(JobStatus::Submitted),
            (JobStatus::Submitted, JobAction::Complete) => Ok(JobStatus::Completed),
            (JobStatus::Submitted, JobAction::Cancel) => Ok(JobStatus::Canceled),
            _ => Err(ClientError::ContractCallError(String::from_str(INVALID_JOB_STATUS))),
        }
    }
}

impl Job {
    /// Applies `action` to the job's status where the guard allows it; the
    /// job is left as it was otherwise.
    pub fn apply(&mut self, action: JobAction) -> (r: Result<(), ClientError>)
        ensures
            match job_next(old(self).status, action) {
                Some(next) => r is Ok && *final(self) == (Job { status: next, ..*old(self) }),
                None => r matches Err(ClientError::ContractCallError(_)) && *final(self)
                    == *old(self),
            },
    {
        let next = self.status.after(action)?;
        self.status = next;
        Ok(())
    }
}

/// A job reaches `Completed` only from `Submitted`: whatever the sequence of
/// allowed actions, a completion step starts from a submitted job.
pub proof fn lemma_completion_needs_submission(status: JobStatus)
    ensures
        job_next(status, JobAction::Complete) == Some(JobStatus::Completed) <==> status
            == JobStatus::Submitted,
        job_next(status, JobAction::Complete) is None <==> status != JobStatus::Submitted,
{
}

/// What can be done to a node's registration.
#[derive(Debug, Clone, Copy, PartialEq, Eq)]
pub enum NodeAction {
    Add,
    Remove,
}

/// The registration a node moves to: a node that is not active may be
/// added, an active one removed.
pub open spec fn node_next(status: NodeStatus, action: NodeAction) -> Option<NodeStatus> {
    match (status, action) {
        (NodeStatus::Unregistered, NodeAction::Add) => Some(NodeStatus::Active),
        (NodeStatus::Removed, NodeAction::Add) => Some(NodeStatus::Active),
        (NodeStatus::Active, NodeAction::Remove) => Some(NodeStatus::Removed),
        _ => None,
    }
}

/// The contract's error for adding an active node.
pub const NODE_ALREADY_ADDED: &'static str = "NodeAlreadyAdded";

/// The contract's error for removing a node that is not active.
pub const NODE_NOT_ACTIVE: &'static str = "NodeNotActive";

impl NodeStatus {
    /// The registration after `action`, or the contract's rejection.
    pub fn after(self, action: NodeAction) -> (r: Result<NodeStatus, ClientError>)
        ensures
            match node_next(self, action) {
                Some(next) => r == Ok::<NodeStatus, ClientError>(next),
                None => r matches Err(ClientError::ContractCallError(m)) && m@ == (
                if action == NodeAction::Add {
                    NODE_ALREADY_ADDED@
                } else {
                    NODE_NOT_ACTIVE@
                }),
            },
    {
        match (self, action) {
            (NodeStatus::Unregistered, NodeAction::Add) => Ok(NodeStatus::Active),
            (NodeStatus::Removed, NodeAction::Add) => Ok(NodeStatus::Active),
            (NodeStatus::Active, NodeAction::Remove) => Ok(NodeStatus::Removed),
            (_, NodeAction::Add) => Err(
                ClientError::ContractCallError(String::from_str(NODE_ALREADY_ADDED)),
            ),
            (_, NodeAction::Remove) => Err(
                ClientError::ContractCallError(String::from_str(NODE_NOT_ACTIVE)),
            ),
        }
    }
}

/// A node record as read from a contract: the chain answers an unknown node
/// with an empty record, recognised by its empty url.
pub fn node_from_info(info: NodeInfo) -> (r: Option<NodeInfo>)
    ensures
        info.url@.len() == 0 ==> r is None,
        info.url@.len() != 0 ==> r == Some(info),
{
    if info.url.as_str().is_empty() {
        None
    } else {
        Some(info)
    }
}

} // verus!
