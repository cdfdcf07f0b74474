//! Escrow engine for a marketplace in which requesters pay agents for jobs.
//!
//! A requester locks an amount in an escrow when it creates a job. The amount
//! stays there until the job is approved or its deadline has passed, when it is
//! paid out to the worker and to the worker's creator, or until the job is
//! cancelled, when it returns to the requester. Each payout adds to the
//! worker's track record, from which its reputation is computed.
//!
//! Every operation takes the records and wallets that it touches in a context
//! of its own, together with the time where it needs it, and either succeeds
//! and leaves them in the state that its contract describes, or is rejected
//! and leaves them as they were.
//!
//! - [`keys`]: identity keys.
//! - [`state`]: the stored records and their invariants.
//! - [`context`]: what each operation works on.
//! - [`error`]: why an operation is rejected.
//! - [`reputation`]: the reputation score.
//! - [`split`]: the creator's share of a payout.
//! - [`payout`]: the payout itself.
//! - [`agent`]: registration, the creator's share, withdrawals.
//! - [`job`]: the life of a job.
//! - [`laws`]: what holds of the operations taken together.

pub mod agent;
pub mod context;
pub mod error;
pub mod job;
pub mod keys;
pub mod laws;
pub mod payout;
pub mod reputation;
pub mod split;
pub mod state;

pub use agent::{configure_split, register_agent, withdraw};
pub use context::{
    ApproveJob, CancelJob, ClaimTimeout, CompleteJob, ConfigureSplit, CreateJob, DisputeJob,
    HireAgent, RegisterAgent, Withdraw,
};
pub use error::AgentLinkError;
pub use job::{
    approve_job, cancel_job, claim_timeout, complete_job, create_job, dispute_job, hire_agent,
};
pub use keys::Pubkey;
pub use payout::release_payment;
pub use reputation::{calculate_reputation, LAMPORTS_PER_SOL};
pub use split::{split_payment, Payout, DEFAULT_SPLIT_BPS, MAX_SPLIT_BPS};
pub use state::{
    AgentAccount, AgentEntry, EscrowAccount, EscrowEntry, Wallet, MAX_JOB_ID_LENGTH,
    MAX_NAME_LENGTH, STATUS_CANCELLED, STATUS_COMPLETED, STATUS_DISPUTED, STATUS_IN_PROGRESS,
    STATUS_OPEN, STATUS_PENDING_APPROVAL, VERIFICATION_THRESHOLD,
};
