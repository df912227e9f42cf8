//! Records of the escrow program, its errors and its notifications.
use vstd::prelude::*;
use crate::identity::Identity;

verus! {

/// Seconds after deposit from which anyone may refund a vault to its researcher.
pub const REFUND_TIMEOUT_SECS: i64 = 15_552_000;

/// Number of distinct approvals that releases a vault, for a fresh program.
pub const DEFAULT_APPROVAL_THRESHOLD: u8 = 2;

/// Where a vault stands; `Released` and `Refunded` are terminal.
#[derive(Clone, Copy, Debug, PartialEq, Eq, Structural)]
pub enum EscrowStatus {
    Deposited,
    Released,
    Refunded,
}

/// Process-wide configuration of the escrow program.
#[derive(Clone, Debug)]
pub struct BountyEscrowState {
    pub admin: Identity,
    pub vulnerability_registry: Identity,
    /// Approver roster, in the order the identities were added.
    pub approvers: Vec<Identity>,
    pub paused: bool,
    pub approval_threshold: u8,
    /// Running total of everything ever deposited.
    pub total_escrowed: u64,
}

/// The vault holding the bounty for one vulnerability.
#[derive(Clone, Copy, Debug, PartialEq, Eq, Structural)]
pub struct EscrowAccount {
    pub vuln_id: u64,
    pub researcher: Identity,
    pub amount: u64,
    pub deposit_time: i64,
    pub release_time: i64,
    pub status: EscrowStatus,
    pub approval_count: u8,
    pub is_disputed: bool,
    /// What the vault holds right now.
    pub balance: u64,
}

/// Proof that `approver` voted to release vault `vuln_id`.
#[derive(Clone, Copy, Debug, PartialEq, Eq, Structural)]
pub struct ApprovalRecord {
    pub vuln_id: u64,
    pub approver: Identity,
    pub timestamp: i64,
}

/// Funds paid out of vaults to one identity.
#[derive(Clone, Copy, Debug, PartialEq, Eq, Structural)]
pub struct Credit {
    pub owner: Identity,
    pub amount: u64,
}

#[derive(Clone, Copy, Debug, PartialEq, Eq, Structural)]
pub enum CustomError {
    InvalidAmount,
    EscrowExists,
    EscrowNotFound,
    InvalidStatus,
    Disputed,
    NoActiveDispute,
    TimeoutNotReached,
    AlreadyApprover,
    NotApprover,
    LastApprover,
    NotAdmin,
    NotPaused,
    AlreadyApproved,
    AlreadyDisputed,
    UnauthorizedRegistry,
}

/// The message that describes each error.
pub open spec fn error_message(e: CustomError) -> Seq<char> {
    match e {
        CustomError::InvalidAmount => "Amount must be greater than 0"@,
        CustomError::EscrowExists => "Escrow already exists"@,
        CustomError::EscrowNotFound => "Escrow not found"@,
        CustomError::InvalidStatus => "Invalid escrow status"@,
        CustomError::Disputed => "Escrow is disputed"@,
        CustomError::NoActiveDispute => "No active dispute"@,
        CustomError::TimeoutNotReached => "Timeout not reached"@,
        CustomError::AlreadyApprover => "Already an approver"@,
        CustomError::NotApprover => "Not an approver"@,
        CustomError::LastApprover => "Cannot remove the last approver"@,
        CustomError::NotAdmin => "Caller is not the admin"@,
        CustomError::NotPaused => "Contract is not paused"@,
        CustomError::AlreadyApproved => "Already approved"@,
        CustomError::AlreadyDisputed => "Already disputed"@,
        CustomError::UnauthorizedRegistry => "Unauthorized registry"@,
    }
}

impl CustomError {
    /// The human-readable message of the error.
    pub fn message(&self) -> (r: &'static str)
        ensures
            r@ == error_message(*self),
    {
        match self {
            CustomError::InvalidAmount => "Amount must be greater than 0",
            CustomError::EscrowExists => "Escrow already exists",
            CustomError::EscrowNotFound => "Escrow not found",
            CustomError::InvalidStatus => "Invalid escrow status",
            CustomError::Disputed => "Escrow is disputed",
            CustomError::NoActiveDispute => "No active dispute",
            CustomError::TimeoutNotReached => "Timeout not reached",
            CustomError::AlreadyApprover => "Already an approver",
            CustomError::NotApprover => "Not an approver",
            CustomError::LastApprover => "Cannot remove the last approver",
            CustomError::NotAdmin => "Caller is not the admin",
            CustomError::NotPaused => "Contract is not paused",
            CustomError::AlreadyApproved => "Already approved",
            CustomError::AlreadyDisputed => "Already disputed",
            CustomError::UnauthorizedRegistry => "Unauthorized registry",
        }
    }
}

#[derive(Clone, Copy, Debug, PartialEq, Eq, Structural)]
pub struct BountyDeposited {
    pub vuln_id: u64,
    pub researcher: Identity,
    pub amount: u64,
}

#[derive(Clone, Copy, Debug, PartialEq, Eq, Structural)]
pub struct BountyReleased {
    pub vuln_id: u64,
    pub researcher: Identity,
    pub amount: u64,
}

#[derive(Clone, Copy, Debug, PartialEq, Eq, Structural)]
pub struct BountyRefunded {
    pub vuln_id: u64,
    pub researcher: Identity,
    pub amount: u64,
}

#[derive(Clone, Copy, Debug, PartialEq, Eq, Structural)]
pub struct DisputeResolved {
    pub vuln_id: u64,
    pub approved: bool,
}

#[derive(Clone, Copy, Debug, PartialEq, Eq, Structural)]
pub struct ApproverAdded {
    pub approver: Identity,
}

#[derive(Clone, Copy, Debug, PartialEq, Eq, Structural)]
pub struct ApproverRemoved {
    pub approver: Identity,
}

#[derive(Clone, Copy, Debug, PartialEq, Eq, Structural)]
pub struct DisputeRaised {
    pub vuln_id: u64,
    pub disputer: Identity,
}

/// A notification emitted by a committed operation.
#[derive(Clone, Copy, Debug, PartialEq, Eq, Structural)]
pub enum EscrowEvent {
    Deposited(BountyDeposited),
    Released(BountyReleased),
    Refunded(BountyRefunded),
    Resolved(DisputeResolved),
    ApproverAdded(ApproverAdded),
    ApproverRemoved(ApproverRemoved),
    DisputeRaised(DisputeRaised),
}

} // verus!
