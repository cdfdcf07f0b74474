//! What each operation works on: the records and wallets that it reads and writes.
//!
//! A context holds each record with the key of its slot and the balance held
//! there. Where two fields of a context stand for the same record or wallet,
//! the one that the operation writes is the one that counts: no operation
//! writes two fields that can stand for the same thing.

use vstd::prelude::*;
use crate::keys::Pubkey;
use crate::state::{AgentEntry, EscrowEntry, Wallet};

verus! {

/// Registration of an agent.
#[derive(Clone, Debug, PartialEq, Eq)]
pub struct RegisterAgent {
    /// The key under which the agent is stored: the one of its creator and name.
    pub agent_key: Pubkey,
    /// Tag of the slot with that key.
    pub bump: u8,
    /// The slot with that key: empty before a registration, the new agent after it.
    pub agent: Option<AgentEntry>,
    /// Who registers the agent and pays for it.
    pub creator: Wallet,
}

impl RegisterAgent {
    /// Every record in it is well formed.
    pub open spec fn wf(&self) -> bool {
        self.agent matches Some(agent) ==> agent.data.wf()
    }
}

/// Creation of a job.
#[derive(Clone, Debug, PartialEq, Eq)]
pub struct CreateJob {
    /// The key under which the job is stored: the one of its identifier.
    pub escrow_key: Pubkey,
    /// Tag of the slot with that key.
    pub bump: u8,
    /// The slot with that key: empty before the creation, the new escrow after it.
    pub escrow: Option<EscrowEntry>,
    /// The agent that pays for the job.
    pub requester_agent: AgentEntry,
    /// The signer, from whose wallet the amount is taken.
    pub requester: Wallet,
}

impl CreateJob {
    /// Every record in it is well formed.
    pub open spec fn wf(&self) -> bool {
        &&& self.requester_agent.data.wf()
        &&& self.escrow matches Some(escrow) ==> escrow.wf()
    }
}

/// Hiring of a worker.
#[derive(Clone, Debug, PartialEq, Eq)]
pub struct HireAgent {
    /// The job.
    pub escrow: EscrowEntry,
    /// The agent to hire.
    pub worker_agent: AgentEntry,
    /// The agent that hires.
    pub requester_agent: AgentEntry,
    /// The signer.
    pub requester: Wallet,
}

impl HireAgent {
    /// Every record in it is well formed.
    pub open spec fn wf(&self) -> bool {
        &&& self.escrow.wf()
        &&& self.worker_agent.data.wf()
        &&& self.requester_agent.data.wf()
    }
}

/// A worker's report that the job is done.
#[derive(Clone, Debug, PartialEq, Eq)]
pub struct CompleteJob {
    /// The job.
    pub escrow: EscrowEntry,
    /// The agent that reports.
    pub worker_agent: AgentEntry,
    /// The signer.
    pub worker: Wallet,
}

impl CompleteJob {
    /// Every record in it is well formed.
    pub open spec fn wf(&self) -> bool {
        &&& self.escrow.wf()
        &&& self.worker_agent.data.wf()
    }
}

/// A requester's approval, which pays the job out.
#[derive(Clone, Debug, PartialEq, Eq)]
pub struct ApproveJob {
    /// The job.
    pub escrow: EscrowEntry,
    /// The agent that did the work.
    pub worker_agent: AgentEntry,
    /// The wallet of that agent's creator.
    pub worker_creator: Wallet,
    /// The agent that pays.
    pub requester_agent: AgentEntry,
    /// The signer.
    pub requester: Wallet,
}

impl ApproveJob {
    /// Every record in it is well formed.
    pub open spec fn wf(&self) -> bool {
        &&& self.escrow.wf()
        &&& self.worker_agent.data.wf()
        &&& self.requester_agent.data.wf()
    }
}

/// A payout after the deadline, which anyone may ask for.
#[derive(Clone, Debug, PartialEq, Eq)]
pub struct ClaimTimeout {
    /// The job.
    pub escrow: EscrowEntry,
    /// The agent that did the work.
    pub worker_agent: AgentEntry,
    /// The wallet of that agent's creator.
    pub worker_creator: Wallet,
    /// The signer.
    pub caller: Wallet,
}

impl ClaimTimeout {
    /// Every record in it is well formed.
    pub open spec fn wf(&self) -> bool {
        &&& self.escrow.wf()
        &&& self.worker_agent.data.wf()
    }
}

/// Cancellation of a job that nobody was hired for.
#[derive(Clone, Debug, PartialEq, Eq)]
pub struct CancelJob {
    /// The job.
    pub escrow: EscrowEntry,
    /// The agent that pays.
    pub requester_agent: AgentEntry,
    /// The signer, to whose wallet the amount returns.
    pub requester: Wallet,
}

impl CancelJob {
    /// Every record in it is well formed.
    pub open spec fn wf(&self) -> bool {
        &&& self.escrow.wf()
        &&& self.requester_agent.data.wf()
    }
}

/// A dispute raised by one of the two parties.
#[derive(Clone, Debug, PartialEq, Eq)]
pub struct DisputeJob {
    /// The job.
    pub escrow: EscrowEntry,
    /// The agent that disputes.
    pub caller_agent: AgentEntry,
    /// The signer.
    pub caller: Wallet,
}

impl DisputeJob {
    /// Every record in it is well formed.
    pub open spec fn wf(&self) -> bool {
        &&& self.escrow.wf()
        &&& self.caller_agent.data.wf()
    }
}

/// A change of the share that goes to an agent's creator.
#[derive(Clone, Debug, PartialEq, Eq)]
pub struct ConfigureSplit {
    /// The agent.
    pub agent: AgentEntry,
    /// The signer.
    pub authority: Wallet,
}

impl ConfigureSplit {
    /// Every record in it is well formed.
    pub open spec fn wf(&self) -> bool {
        self.agent.data.wf()
    }
}

/// A withdrawal of an agent's earnings.
#[derive(Clone, Debug, PartialEq, Eq)]
pub struct Withdraw {
    /// The agent.
    pub agent: AgentEntry,
    /// The signer, to whose wallet the earnings go.
    pub authority: Wallet,
}

impl Withdraw {
    /// Every record in it is well formed.
    pub open spec fn wf(&self) -> bool {
        self.agent.data.wf()
    }
}

} // verus!
