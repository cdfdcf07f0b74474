//! The stored records: agents, job escrows and the wallets that pay and are paid.

use vstd::prelude::*;
use crate::keys::Pubkey;
use crate::reputation::reputation_of;

verus! {

/// Longest agent name, in bytes.
pub const MAX_NAME_LENGTH: usize = 32;

/// Longest job identifier, in bytes.
pub const MAX_JOB_ID_LENGTH: usize = 36;

/// Successful jobs after which an agent counts as verified.
pub const VERIFICATION_THRESHOLD: u32 = 3;

/// The job waits for a worker.
pub const STATUS_OPEN: u8 = 0;

/// A worker was hired and the deadline runs.
pub const STATUS_IN_PROGRESS: u8 = 1;

/// The worker reported the job done; the requester has not approved it yet.
pub const STATUS_PENDING_APPROVAL: u8 = 2;

/// The job was paid out.
pub const STATUS_COMPLETED: u8 = 3;

/// One of the parties disputed the job.
pub const STATUS_DISPUTED: u8 = 4;

/// The job was cancelled and refunded.
pub const STATUS_CANCELLED: u8 = 5;

/// The length of a string in bytes.
pub open spec fn byte_len(s: Seq<char>) -> nat {
    vstd::utf8::encode_utf8(s).len()
}

/// Whether `hours` is one of the timeouts that a job may have.
pub open spec fn valid_timeout(hours: u8) -> bool {
    hours == 24 || hours == 48 || hours == 72
}

/// The record of an agent.
#[derive(Clone, Debug, PartialEq, Eq)]
pub struct AgentAccount {
    /// Tag of the slot that holds the record.
    pub bump: u8,
    /// The agent's name, 1 to 32 bytes, fixed at registration.
    pub name: String,
    /// Who registered the agent.
    pub creator: Pubkey,
    /// Who may act for the agent.
    pub authority: Pubkey,
    /// When the agent was registered.
    pub created_at: i64,
    /// Whether the creator signed the registration.
    pub creator_signed: bool,
    /// Whether the agent has reached the verification threshold.
    pub verified: bool,
    /// Number of jobs paid out to the agent.
    pub successful_jobs: u32,
    /// Sum of the amounts of the jobs paid out to the agent.
    pub total_earned: u64,
    /// Sum of the amounts that the agent has in escrow or has paid.
    pub total_spent: u64,
    /// Reputation score, 0 to 10000.
    pub reputation_score: u16,
    /// Share of each payout that goes to the creator, in basis points, 0 to 5000.
    pub creator_split_bps: u16,
}

impl AgentAccount {
    /// Bytes that a stored agent record takes.
    pub const SPACE: usize = 143;

    /// What holds of every agent record that the operations produce.
    pub open spec fn wf(&self) -> bool {
        &&& 1 <= byte_len(self.name@) <= 32
        &&& self.creator_split_bps <= 5000
        &&& self.reputation_score == reputation_of(
            self.successful_jobs as nat,
            self.total_earned as nat,
        )
        &&& self.successful_jobs >= 3 ==> self.verified
    }
}

/// The record of a job and of the value held for it.
#[derive(Clone, Debug, PartialEq, Eq)]
pub struct EscrowAccount {
    /// Tag of the slot that holds the record.
    pub bump: u8,
    /// The job's identifier, at most 36 bytes.
    pub job_id: String,
    /// Digest of the job's description.
    pub job_hash: [u8; 32],
    /// Key of the agent record that pays.
    pub requester: Pubkey,
    /// Key of the agent record that works; the empty identity until one is hired.
    pub worker: Pubkey,
    /// The value in escrow; zero once paid out or refunded.
    pub amount: u64,
    /// Where the job stands: one of the `STATUS_` constants.
    pub status: u8,
    /// Hours that the worker has from being hired: 24, 48 or 72.
    pub timeout_hours: u8,
    /// When the timeout ends; zero until a worker is hired.
    pub deadline: i64,
    /// When the job was created.
    pub created_at: i64,
}

impl EscrowAccount {
    /// Bytes that a stored escrow record takes.
    pub const SPACE: usize = 171;

    /// Whether the job has ended: paid out or refunded.
    pub open spec fn settled(&self) -> bool {
        self.status == STATUS_COMPLETED || self.status == STATUS_CANCELLED
    }

    /// What holds of every escrow record that the operations produce.
    pub open spec fn wf(&self) -> bool {
        &&& byte_len(self.job_id@) <= 36
        &&& self.status <= STATUS_CANCELLED
        &&& valid_timeout(self.timeout_hours)
        &&& self.settled() <==> self.amount == 0
        &&& self.status == STATUS_OPEN ==> self.worker.is_default() && self.deadline == 0
    }
}

/// An agent record in its slot: the slot's key, the balance held there, the record.
#[derive(Clone, Debug, PartialEq, Eq)]
pub struct AgentEntry {
    /// The key of the slot.
    pub key: Pubkey,
    /// The balance held in the slot, the reserved minimum included.
    pub lamports: u64,
    /// The record.
    pub data: AgentAccount,
}

/// An escrow record in its slot: the slot's key, the value held there, the record.
#[derive(Clone, Debug, PartialEq, Eq)]
pub struct EscrowEntry {
    /// The key of the slot.
    pub key: Pubkey,
    /// The value held for the job.
    pub lamports: u64,
    /// The record.
    pub data: EscrowAccount,
}

impl EscrowEntry {
    /// The record is well formed and the value held is the amount in escrow.
    pub open spec fn wf(&self) -> bool {
        &&& self.data.wf()
        &&& self.lamports == self.data.amount
    }
}

/// A wallet: an identity and its balance.
#[derive(Clone, Copy, Debug, PartialEq, Eq)]
pub struct Wallet {
    /// The identity.
    pub key: Pubkey,
    /// The balance.
    pub lamports: u64,
}

} // verus!
