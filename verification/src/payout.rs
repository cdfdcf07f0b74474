//! Paying out a job: the escrowed value goes to the worker and to the worker's
//! creator, and the worker's track record grows by one job.

use vstd::prelude::*;
use crate::error::AgentLinkError;
use crate::reputation::{calculate_reputation, reputation_of};
use crate::split::{creator_share, split_payment, worker_share};
use crate::state::{
    AgentAccount, AgentEntry, EscrowAccount, EscrowEntry, Wallet, STATUS_COMPLETED,
};

verus! {

/// Whether every number that a payout writes stays in its range: the split
/// exists, the escrow holds the amount, and no balance, counter or accumulator
/// overflows.
pub open spec fn payout_fits(escrow: EscrowEntry, worker: AgentEntry, creator: Wallet) -> bool {
    let amount = escrow.data.amount as nat;
    let bps = worker.data.creator_split_bps as nat;
    &&& creator_share(amount, bps) <= amount
    &&& amount <= escrow.lamports
    &&& creator.lamports + creator_share(amount, bps) <= u64::MAX
    &&& worker.lamports + worker_share(amount, bps) <= u64::MAX
    &&& worker.data.successful_jobs + 1 <= u32::MAX
    &&& worker.data.total_earned + amount <= u64::MAX
}

/// The escrow after a payout: nothing is held, the amount is zero, the job is completed.
pub open spec fn paid_escrow(escrow: EscrowEntry) -> EscrowEntry {
    EscrowEntry {
        lamports: (escrow.lamports - escrow.data.amount) as u64,
        data: EscrowAccount { amount: 0, status: STATUS_COMPLETED, ..escrow.data },
        ..escrow
    }
}

/// The worker after a payout of `escrow`: the worker's part is added to the
/// balance, one job and the whole amount to the track record; three jobs make
/// the agent verified; the reputation is that of the new track record.
pub open spec fn paid_worker(escrow: EscrowEntry, worker: AgentEntry) -> AgentEntry {
    let amount = escrow.data.amount as nat;
    let jobs = (worker.data.successful_jobs + 1) as u32;
    let earned = (worker.data.total_earned + amount) as u64;
    AgentEntry {
        lamports: (worker.lamports + worker_share(
            amount,
            worker.data.creator_split_bps as nat,
        )) as u64,
        data: AgentAccount {
            successful_jobs: jobs,
            total_earned: earned,
            verified: worker.data.verified || jobs >= 3,
            reputation_score: reputation_of(jobs as nat, earned as nat) as u16,
            ..worker.data
        },
        ..worker
    }
}

/// The creator's wallet after a payout of `escrow` to `worker`.
pub open spec fn paid_creator(escrow: EscrowEntry, worker: AgentEntry, creator: Wallet) -> Wallet {
    Wallet {
        lamports: (creator.lamports + creator_share(
            escrow.data.amount as nat,
            worker.data.creator_split_bps as nat,
        )) as u64,
        ..creator
    }
}

/// Pays the escrowed amount out: the creator's share to `creator`, the rest to
/// `worker`, and updates the worker's track record and the escrow's state.
///
/// Neither the job's status nor the identities are examined here: the
/// operations that release a payment do that first. Where a number would
/// leave its range nothing is changed.
pub fn release_payment(
    escrow: &mut EscrowEntry,
    worker: &mut AgentEntry,
    creator: &mut Wallet,
) -> (res: Result<(), AgentLinkError>)
    ensures
        payout_fits(*old(escrow), *old(worker), *old(creator)) <==> res is Ok,
        res is Ok ==> {
            &&& *final(escrow) == paid_escrow(*old(escrow))
            &&& *final(worker) == paid_worker(*old(escrow), *old(worker))
            &&& *final(creator) == paid_creator(*old(escrow), *old(worker), *old(creator))
        },
        res is Err ==> {
            &&& res == Err::<(), AgentLinkError>(AgentLinkError::ArithmeticOverflow)
            &&& *final(escrow) == *old(escrow)
            &&& *final(worker) == *old(worker)
            &&& *final(creator) == *old(creator)
        },
{
    let amount: u64 = escrow.data.amount;
    let payout = match split_payment(amount, worker.data.creator_split_bps) {
        Some(p) => p,
        None => { return Err(AgentLinkError::ArithmeticOverflow); },
    };
    let held = match escrow.lamports.checked_sub(amount) {
        Some(v) => v,
        None => { return Err(AgentLinkError::ArithmeticOverflow); },
    };
    let creator_balance = match creator.lamports.checked_add(payout.creator_amount) {
        Some(v) => v,
        None => { return Err(AgentLinkError::ArithmeticOverflow); },
    };
    let worker_balance = match worker.lamports.checked_add(payout.worker_amount) {
        Some(v) => v,
        None => { return Err(AgentLinkError::ArithmeticOverflow); },
    };
    let jobs = match worker.data.successful_jobs.checked_add(1) {
        Some(v) => v,
        None => { return Err(AgentLinkError::ArithmeticOverflow); },
    };
    let earned = match worker.data.total_earned.checked_add(amount) {
        Some(v) => v,
        None => { return Err(AgentLinkError::ArithmeticOverflow); },
    };
    escrow.lamports = held;
    creator.lamports = creator_balance;
    worker.lamports = worker_balance;
    worker.data.successful_jobs = jobs;
    worker.data.total_earned = earned;
    if jobs >= 3 && !worker.data.verified {
        worker.data.verified = true;
    }
    worker.data.reputation_score = calculate_reputation(jobs, earned);
    escrow.data.amount = 0;
    escrow.data.status = STATUS_COMPLETED;
    Ok(())
}

} // verus!
