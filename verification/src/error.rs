//! The reasons for which an operation is rejected.

use vstd::prelude::*;

verus! {

/// Why an operation was rejected. A rejected operation changes nothing.
#[derive(Clone, Copy, Debug, PartialEq, Eq, Structural)]
pub enum AgentLinkError {
    /// The agent name is longer than 32 bytes.
    NameTooLong,
    /// The agent name is empty.
    NameEmpty,
    /// The job identifier is longer than 36 bytes.
    JobIdTooLong,
    /// The escrowed amount is zero.
    InvalidAmount,
    /// The timeout is not 24, 48 or 72 hours.
    InvalidTimeout,
    /// The job is not in a state from which the operation may start.
    InvalidJobStatus,
    /// The signer is not the authority that the operation asks for.
    Unauthorized,
    /// The worker record is not the one that the escrow names.
    InvalidWorker,
    /// The requester record is not the one that the escrow names.
    InvalidRequester,
    /// The creator wallet is not the one that the worker record names.
    InvalidCreator,
    /// The deadline has not passed yet.
    DeadlineNotReached,
    /// The creator split is above 5000 basis points.
    SplitTooHigh,
    /// The balance does not cover the requested amount.
    InsufficientFunds,
    /// The amount to withdraw is zero.
    NothingToWithdraw,
    /// The key of the record to create is already taken.
    AccountInUse,
    /// A counter, an accumulator, a balance or a timestamp would leave its range.
    ArithmeticOverflow,
}

impl AgentLinkError {
    /// The text of the message that goes with the error.
    pub open spec fn message_text(&self) -> Seq<char> {
        match self {
            AgentLinkError::NameTooLong => "Agent name too long (max 32 characters)"@,
            AgentLinkError::NameEmpty => "Agent name cannot be empty"@,
            AgentLinkError::JobIdTooLong => "Job ID too long (max 36 characters)"@,
            AgentLinkError::InvalidAmount => "Invalid amount"@,
            AgentLinkError::InvalidTimeout => "Invalid timeout (must be 24, 48, or 72 hours)"@,
            AgentLinkError::InvalidJobStatus => "Invalid job status for this operation"@,
            AgentLinkError::Unauthorized => "Unauthorized"@,
            AgentLinkError::InvalidWorker => "Invalid worker"@,
            AgentLinkError::InvalidRequester => "Invalid requester"@,
            AgentLinkError::InvalidCreator => "Invalid creator"@,
            AgentLinkError::DeadlineNotReached => "Deadline not reached"@,
            AgentLinkError::SplitTooHigh => "Creator split too high (max 50%)"@,
            AgentLinkError::InsufficientFunds => "Insufficient funds"@,
            AgentLinkError::NothingToWithdraw => "Nothing to withdraw"@,
            AgentLinkError::AccountInUse => "Account already in use"@,
            AgentLinkError::ArithmeticOverflow => "Arithmetic overflow"@,
        }
    }

    /// The message that goes with the error.
    pub fn message(&self) -> (text: &'static str)
        ensures
            text@ == self.message_text(),
    {
        match self {
            AgentLinkError::NameTooLong => "Agent name too long (max 32 characters)",
            AgentLinkError::NameEmpty => "Agent name cannot be empty",
            AgentLinkError::JobIdTooLong => "Job ID too long (max 36 characters)",
            AgentLinkError::InvalidAmount => "Invalid amount",
            AgentLinkError::InvalidTimeout => "Invalid timeout (must be 24, 48, or 72 hours)",
            AgentLinkError::InvalidJobStatus => "Invalid job status for this operation",
            AgentLinkError::Unauthorized => "Unauthorized",
            AgentLinkError::InvalidWorker => "Invalid worker",
            AgentLinkError::InvalidRequester => "Invalid requester",
            AgentLinkError::InvalidCreator => "Invalid creator",
            AgentLinkError::DeadlineNotReached => "Deadline not reached",
            AgentLinkError::SplitTooHigh => "Creator split too high (max 50%)",
            AgentLinkError::InsufficientFunds => "Insufficient funds",
            AgentLinkError::NothingToWithdraw => "Nothing to withdraw",
            AgentLinkError::AccountInUse => "Account already in use",
            AgentLinkError::ArithmeticOverflow => "Arithmetic overflow",
        }
    }
}

} // verus!
