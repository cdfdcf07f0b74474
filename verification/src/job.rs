//! The life of a job: created, a worker hired, reported done, then paid out on
//! approval or after the deadline; or cancelled before anyone is hired; or
//! disputed while the work is under way or awaits approval.

use vstd::prelude::*;
use crate::context::{
    ApproveJob, CancelJob, ClaimTimeout, CompleteJob, CreateJob, DisputeJob, HireAgent,
};
use crate::error::AgentLinkError;
use crate::keys::Pubkey;
use crate::payout::{paid_creator, paid_escrow, paid_worker, payout_fits, release_payment};
use crate::state::{
    byte_len, valid_timeout, AgentAccount, AgentEntry, EscrowAccount, EscrowEntry, Wallet,
    MAX_JOB_ID_LENGTH, STATUS_CANCELLED, STATUS_COMPLETED, STATUS_DISPUTED, STATUS_IN_PROGRESS,
    STATUS_OPEN, STATUS_PENDING_APPROVAL,
};

verus! {

/// The operations that move a job from one status to another.
#[derive(Clone, Copy, Debug, PartialEq, Eq, Structural)]
pub enum JobOp {
    /// A worker is hired.
    Hire,
    /// The worker reports the job done.
    Complete,
    /// The requester approves the job.
    Approve,
    /// The payout is claimed after the deadline.
    ClaimTimeout,
    /// The requester cancels the job.
    Cancel,
    /// One of the parties disputes the job.
    Dispute,
}

/// The transition table: the status that `op` leads to from `status`, if `op`
/// may start there.
pub open spec fn next_status(status: u8, op: JobOp) -> Option<u8> {
    match op {
        JobOp::Hire => if status == STATUS_OPEN {
            Some(STATUS_IN_PROGRESS)
        } else {
            None
        },
        JobOp::Complete => if status == STATUS_IN_PROGRESS {
            Some(STATUS_PENDING_APPROVAL)
        } else {
            None
        },
        JobOp::Approve | JobOp::ClaimTimeout => if status == STATUS_PENDING_APPROVAL {
            Some(STATUS_COMPLETED)
        } else {
            None
        },
        JobOp::Cancel => if status == STATUS_OPEN {
            Some(STATUS_CANCELLED)
        } else {
            None
        },
        JobOp::Dispute => if status == STATUS_IN_PROGRESS || status == STATUS_PENDING_APPROVAL {
            Some(STATUS_DISPUTED)
        } else {
            None
        },
    }
}

/// Seconds in an hour.
pub const SECONDS_PER_HOUR: i64 = 3600;

/// Why the creation of a job is rejected, if it is.
pub open spec fn create_job_rejection(
    ctx: CreateJob,
    job_id: Seq<char>,
    amount: u64,
    timeout_hours: u8,
) -> Option<AgentLinkError> {
    if ctx.requester.key != ctx.requester_agent.data.authority {
        Some(AgentLinkError::Unauthorized)
    } else if byte_len(job_id) > 36 {
        Some(AgentLinkError::JobIdTooLong)
    } else if amount == 0 {
        Some(AgentLinkError::InvalidAmount)
    } else if !valid_timeout(timeout_hours) {
        Some(AgentLinkError::InvalidTimeout)
    } else if ctx.escrow is Some {
        Some(AgentLinkError::AccountInUse)
    } else if ctx.requester.lamports < amount {
        Some(AgentLinkError::InsufficientFunds)
    } else if ctx.requester_agent.data.total_spent + amount > u64::MAX {
        Some(AgentLinkError::ArithmeticOverflow)
    } else {
        None
    }
}

/// Whether `after` is what the creation of a job leaves of `before`: the slot
/// holds the new escrow, open, without worker or deadline, with exactly
/// `amount` in it; the wallet has paid `amount`; the requester's spending has
/// grown by `amount`.
pub open spec fn job_created(
    before: CreateJob,
    job_id: Seq<char>,
    job_hash: [u8; 32],
    amount: u64,
    timeout_hours: u8,
    now: i64,
    after: CreateJob,
) -> bool {
    &&& after.escrow matches Some(escrow)
    &&& escrow.key == before.escrow_key
    &&& escrow.lamports == amount
    &&& escrow.data.bump == before.bump
    &&& escrow.data.job_id@ == job_id
    &&& escrow.data.job_hash == job_hash
    &&& escrow.data.requester == before.requester_agent.key
    &&& escrow.data.worker.is_default()
    &&& escrow.data.amount == amount
    &&& escrow.data.status == STATUS_OPEN
    &&& escrow.data.timeout_hours == timeout_hours
    &&& escrow.data.deadline == 0
    &&& escrow.data.created_at == now
    &&& after.requester == (Wallet {
        lamports: (before.requester.lamports - amount) as u64,
        ..before.requester
    })
    &&& after.requester_agent == (AgentEntry {
        data: AgentAccount {
            total_spent: (before.requester_agent.data.total_spent + amount) as u64,
            ..before.requester_agent.data
        },
        ..before.requester_agent
    })
    &&& after.escrow_key == before.escrow_key
    &&& after.bump == before.bump
}

/// Creates a job and locks `amount` for it, taken from the signer's wallet.
///
/// The new escrow is open, has no worker and no deadline, and holds exactly
/// `amount`; the requester's spending grows by `amount`. `now` is the time of
/// the call. A job whose key is taken is not created again.
pub fn create_job(
    ctx: &mut CreateJob,
    job_id: String,
    job_hash: [u8; 32],
    amount: u64,
    timeout_hours: u8,
    now: i64,
) -> (res: Result<(), AgentLinkError>)
    ensures
        res == match create_job_rejection(*old(ctx), job_id@, amount, timeout_hours) {
            Some(e) => Err::<(), AgentLinkError>(e),
            None => Ok(()),
        },
        res is Err ==> *final(ctx) == *old(ctx),
        old(ctx).wf() ==> final(ctx).wf(),
        res is Ok ==> job_created(
            *old(ctx),
            job_id@,
            job_hash,
            amount,
            timeout_hours,
            now,
            *final(ctx),
        ),
{
    if !ctx.requester.key.same(&ctx.requester_agent.data.authority) {
        return Err(AgentLinkError::Unauthorized);
    }
    if job_id.as_str().as_bytes().len() > MAX_JOB_ID_LENGTH {
        return Err(AgentLinkError::JobIdTooLong);
    }
    if amount == 0 {
        return Err(AgentLinkError::InvalidAmount);
    }
    if !(timeout_hours == 24 || timeout_hours == 48 || timeout_hours == 72) {
        return Err(AgentLinkError::InvalidTimeout);
    }
    if ctx.escrow.is_some() {
        return Err(AgentLinkError::AccountInUse);
    }
    let balance = match ctx.requester.lamports.checked_sub(amount) {
        Some(v) => v,
        None => { return Err(AgentLinkError::InsufficientFunds); },
    };
    let spent = match ctx.requester_agent.data.total_spent.checked_add(amount) {
        Some(v) => v,
        None => { return Err(AgentLinkError::ArithmeticOverflow); },
    };
    ctx.requester.lamports = balance;
    ctx.requester_agent.data.total_spent = spent;
    ctx.escrow = Some(
        EscrowEntry {
            key: ctx.escrow_key,
            lamports: amount,
            data: EscrowAccount {
                bump: ctx.bump,
                job_id,
                job_hash,
                requester: ctx.requester_agent.key,
                worker: Pubkey::default(),
                amount,
                status: STATUS_OPEN,
                timeout_hours,
                deadline: 0,
                created_at: now,
            },
        },
    );
    Ok(())
}

/// The end of a timeout of `timeout_hours` hours that starts at `now`.
pub open spec fn deadline_from(now: i64, timeout_hours: u8) -> int {
    now + timeout_hours * 3600
}

/// Why a hiring is rejected, if it is.
pub open spec fn hire_agent_rejection(ctx: HireAgent, now: i64) -> Option<AgentLinkError> {
    if ctx.requester.key != ctx.requester_agent.data.authority {
        Some(AgentLinkError::Unauthorized)
    } else if next_status(ctx.escrow.data.status, JobOp::Hire) is None {
        Some(AgentLinkError::InvalidJobStatus)
    } else if deadline_from(now, ctx.escrow.data.timeout_hours) > i64::MAX {
        Some(AgentLinkError::ArithmeticOverflow)
    } else {
        None
    }
}

/// What a hiring at `now` leaves: the escrow names the worker, is in progress
/// and has its deadline.
pub open spec fn hired(ctx: HireAgent, now: i64) -> HireAgent {
    HireAgent {
        escrow: EscrowEntry {
            data: EscrowAccount {
                worker: ctx.worker_agent.key,
                status: STATUS_IN_PROGRESS,
                deadline: deadline_from(now, ctx.escrow.data.timeout_hours) as i64,
                ..ctx.escrow.data
            },
            ..ctx.escrow
        },
        ..ctx
    }
}

/// Hires the given agent for an open job: the escrow names it as the worker,
/// the job is in progress and its deadline is `now` plus the job's timeout.
pub fn hire_agent(ctx: &mut HireAgent, now: i64) -> (res: Result<(), AgentLinkError>)
    ensures
        res == match hire_agent_rejection(*old(ctx), now) {
            Some(e) => Err::<(), AgentLinkError>(e),
            None => Ok(()),
        },
        res is Err ==> *final(ctx) == *old(ctx),
        old(ctx).wf() ==> final(ctx).wf(),
        res is Ok ==> *final(ctx) == hired(*old(ctx), now),
{
    if !ctx.requester.key.same(&ctx.requester_agent.data.authority) {
        return Err(AgentLinkError::Unauthorized);
    }
    if ctx.escrow.data.status != STATUS_OPEN {
        return Err(AgentLinkError::InvalidJobStatus);
    }
    let hours: i64 = ctx.escrow.data.timeout_hours as i64;
    let span: i64 = hours * SECONDS_PER_HOUR;
    if now > i64::MAX - span {
        return Err(AgentLinkError::ArithmeticOverflow);
    }
    ctx.escrow.data.worker = ctx.worker_agent.key;
    ctx.escrow.data.status = STATUS_IN_PROGRESS;
    ctx.escrow.data.deadline = now + span;
    Ok(())
}

/// Why a report of completion is rejected, if it is.
pub open spec fn complete_job_rejection(ctx: CompleteJob) -> Option<AgentLinkError> {
    if ctx.worker.key != ctx.worker_agent.data.authority {
        Some(AgentLinkError::Unauthorized)
    } else if next_status(ctx.escrow.data.status, JobOp::Complete) is None {
        Some(AgentLinkError::InvalidJobStatus)
    } else if ctx.escrow.data.worker != ctx.worker_agent.key {
        Some(AgentLinkError::Unauthorized)
    } else {
        None
    }
}

/// What a report of completion leaves: the job awaits approval.
pub open spec fn completed(ctx: CompleteJob) -> CompleteJob {
    CompleteJob {
        escrow: EscrowEntry {
            data: EscrowAccount { status: STATUS_PENDING_APPROVAL, ..ctx.escrow.data },
            ..ctx.escrow
        },
        ..ctx
    }
}

/// Reports a job in progress as done: it then awaits approval. Only the
/// authority of the hired worker may report.
pub fn complete_job(ctx: &mut CompleteJob) -> (res: Result<(), AgentLinkError>)
    ensures
        res == match complete_job_rejection(*old(ctx)) {
            Some(e) => Err::<(), AgentLinkError>(e),
            None => Ok(()),
        },
        res is Err ==> *final(ctx) == *old(ctx),
        old(ctx).wf() ==> final(ctx).wf(),
        res is Ok ==> *final(ctx) == completed(*old(ctx)),
{
    if !ctx.worker.key.same(&ctx.worker_agent.data.authority) {
        return Err(AgentLinkError::Unauthorized);
    }
    if ctx.escrow.data.status != STATUS_IN_PROGRESS {
        return Err(AgentLinkError::InvalidJobStatus);
    }
    if !ctx.escrow.data.worker.same(&ctx.worker_agent.key) {
        return Err(AgentLinkError::Unauthorized);
    }
    ctx.escrow.data.status = STATUS_PENDING_APPROVAL;
    Ok(())
}

/// Why an approval is rejected before anything is paid, if it is.
pub open spec fn approve_job_rejection(ctx: ApproveJob) -> Option<AgentLinkError> {
    if ctx.escrow.data.worker != ctx.worker_agent.key {
        Some(AgentLinkError::InvalidWorker)
    } else if ctx.worker_creator.key != ctx.worker_agent.data.creator {
        Some(AgentLinkError::InvalidCreator)
    } else if ctx.escrow.data.requester != ctx.requester_agent.key {
        Some(AgentLinkError::InvalidRequester)
    } else if ctx.requester.key != ctx.requester_agent.data.authority {
        Some(AgentLinkError::Unauthorized)
    } else if next_status(ctx.escrow.data.status, JobOp::Approve) is None {
        Some(AgentLinkError::InvalidJobStatus)
    } else if !payout_fits(ctx.escrow, ctx.worker_agent, ctx.worker_creator) {
        Some(AgentLinkError::ArithmeticOverflow)
    } else {
        None
    }
}

/// What an approval leaves: the job paid out, the requester as before.
pub open spec fn approved(ctx: ApproveJob) -> ApproveJob {
    ApproveJob {
        escrow: paid_escrow(ctx.escrow),
        worker_agent: paid_worker(ctx.escrow, ctx.worker_agent),
        worker_creator: paid_creator(ctx.escrow, ctx.worker_agent, ctx.worker_creator),
        ..ctx
    }
}

/// Approves a job that awaits approval and pays it out.
///
/// Only the authority of the requester named in the escrow may approve, and
/// the worker and its creator's wallet must be those that the escrow and the
/// worker's record name.
pub fn approve_job(ctx: &mut ApproveJob) -> (res: Result<(), AgentLinkError>)
    ensures
        res == match approve_job_rejection(*old(ctx)) {
            Some(e) => Err::<(), AgentLinkError>(e),
            None => Ok(()),
        },
        res is Err ==> *final(ctx) == *old(ctx),
        old(ctx).wf() ==> final(ctx).wf(),
        res is Ok ==> *final(ctx) == approved(*old(ctx)),
{
    if !ctx.escrow.data.worker.same(&ctx.worker_agent.key) {
        return Err(AgentLinkError::InvalidWorker);
    }
    if !ctx.worker_creator.key.same(&ctx.worker_agent.data.creator) {
        return Err(AgentLinkError::InvalidCreator);
    }
    if !ctx.escrow.data.requester.same(&ctx.requester_agent.key) {
        return Err(AgentLinkError::InvalidRequester);
    }
    if !ctx.requester.key.same(&ctx.requester_agent.data.authority) {
        return Err(AgentLinkError::Unauthorized);
    }
    if ctx.escrow.data.status != STATUS_PENDING_APPROVAL {
        return Err(AgentLinkError::InvalidJobStatus);
    }
    match release_payment(&mut ctx.escrow, &mut ctx.worker_agent, &mut ctx.worker_creator) {
        Ok(_) => Ok(()),
        Err(e) => Err(e),
    }
}

/// Why a claim is rejected before anything is paid, if it is.
pub open spec fn claim_timeout_rejection(ctx: ClaimTimeout, now: i64) -> Option<AgentLinkError> {
    if ctx.escrow.data.worker != ctx.worker_agent.key {
        Some(AgentLinkError::InvalidWorker)
    } else if ctx.worker_creator.key != ctx.worker_agent.data.creator {
        Some(AgentLinkError::InvalidCreator)
    } else if next_status(ctx.escrow.data.status, JobOp::ClaimTimeout) is None {
        Some(AgentLinkError::InvalidJobStatus)
    } else if now <= ctx.escrow.data.deadline {
        Some(AgentLinkError::DeadlineNotReached)
    } else if !payout_fits(ctx.escrow, ctx.worker_agent, ctx.worker_creator) {
        Some(AgentLinkError::ArithmeticOverflow)
    } else {
        None
    }
}

/// What a claim leaves: the job paid out, as an approval pays it.
pub open spec fn claimed(ctx: ClaimTimeout) -> ClaimTimeout {
    ClaimTimeout {
        escrow: paid_escrow(ctx.escrow),
        worker_agent: paid_worker(ctx.escrow, ctx.worker_agent),
        worker_creator: paid_creator(ctx.escrow, ctx.worker_agent, ctx.worker_creator),
        ..ctx
    }
}

/// Pays out a job that awaits approval once its deadline has passed. `now` is
/// the time of the call; anyone may make it.
pub fn claim_timeout(ctx: &mut ClaimTimeout, now: i64) -> (res: Result<(), AgentLinkError>)
    ensures
        res == match claim_timeout_rejection(*old(ctx), now) {
            Some(e) => Err::<(), AgentLinkError>(e),
            None => Ok(()),
        },
        res is Err ==> *final(ctx) == *old(ctx),
        old(ctx).wf() ==> final(ctx).wf(),
        res is Ok ==> *final(ctx) == claimed(*old(ctx)),
{
    if !ctx.escrow.data.worker.same(&ctx.worker_agent.key) {
        return Err(AgentLinkError::InvalidWorker);
    }
    if !ctx.worker_creator.key.same(&ctx.worker_agent.data.creator) {
        return Err(AgentLinkError::InvalidCreator);
    }
    if ctx.escrow.data.status != STATUS_PENDING_APPROVAL {
        return Err(AgentLinkError::InvalidJobStatus);
    }
    if now <= ctx.escrow.data.deadline {
        return Err(AgentLinkError::DeadlineNotReached);
    }
    match release_payment(&mut ctx.escrow, &mut ctx.worker_agent, &mut ctx.worker_creator) {
        Ok(_) => Ok(()),
        Err(e) => Err(e),
    }
}

/// Whether every number that a refund writes stays in its range.
pub open spec fn refund_fits(ctx: CancelJob) -> bool {
    &&& ctx.escrow.data.amount <= ctx.escrow.lamports
    &&& ctx.escrow.data.amount <= ctx.requester_agent.data.total_spent
    &&& ctx.requester.lamports + ctx.escrow.data.amount <= u64::MAX
}

/// Why a cancellation is rejected, if it is.
pub open spec fn cancel_job_rejection(ctx: CancelJob) -> Option<AgentLinkError> {
    if ctx.escrow.data.requester != ctx.requester_agent.key {
        Some(AgentLinkError::InvalidRequester)
    } else if ctx.requester.key != ctx.requester_agent.data.authority {
        Some(AgentLinkError::Unauthorized)
    } else if next_status(ctx.escrow.data.status, JobOp::Cancel) is None {
        Some(AgentLinkError::InvalidJobStatus)
    } else if !refund_fits(ctx) {
        Some(AgentLinkError::ArithmeticOverflow)
    } else {
        None
    }
}

/// What a cancellation leaves: the escrow cancelled and empty, the amount back
/// in the wallet, the requester's spending lower by the amount.
pub open spec fn cancelled(ctx: CancelJob) -> CancelJob {
    CancelJob {
        escrow: EscrowEntry {
            lamports: (ctx.escrow.lamports - ctx.escrow.data.amount) as u64,
            data: EscrowAccount { amount: 0, status: STATUS_CANCELLED, ..ctx.escrow.data },
            ..ctx.escrow
        },
        requester_agent: AgentEntry {
            data: AgentAccount {
                total_spent: (ctx.requester_agent.data.total_spent - ctx.escrow.data.amount) as u64,
                ..ctx.requester_agent.data
            },
            ..ctx.requester_agent
        },
        requester: Wallet {
            lamports: (ctx.requester.lamports + ctx.escrow.data.amount) as u64,
            ..ctx.requester
        },
    }
}

/// Cancels an open job: the whole escrowed amount returns to the signer's
/// wallet, the requester's spending falls by it, and the escrow is left
/// cancelled with nothing in it. Only the requester's authority may cancel.
pub fn cancel_job(ctx: &mut CancelJob) -> (res: Result<(), AgentLinkError>)
    ensures
        res == match cancel_job_rejection(*old(ctx)) {
            Some(e) => Err::<(), AgentLinkError>(e),
            None => Ok(()),
        },
        res is Err ==> *final(ctx) == *old(ctx),
        old(ctx).wf() ==> final(ctx).wf(),
        res is Ok ==> *final(ctx) == cancelled(*old(ctx)),
{
    if !ctx.escrow.data.requester.same(&ctx.requester_agent.key) {
        return Err(AgentLinkError::InvalidRequester);
    }
    if !ctx.requester.key.same(&ctx.requester_agent.data.authority) {
        return Err(AgentLinkError::Unauthorized);
    }
    if ctx.escrow.data.status != STATUS_OPEN {
        return Err(AgentLinkError::InvalidJobStatus);
    }
    let refund: u64 = ctx.escrow.data.amount;
    let held = match ctx.escrow.lamports.checked_sub(refund) {
        Some(v) => v,
        None => { return Err(AgentLinkError::ArithmeticOverflow); },
    };
    let spent = match ctx.requester_agent.data.total_spent.checked_sub(refund) {
        Some(v) => v,
        None => { return Err(AgentLinkError::ArithmeticOverflow); },
    };
    let balance = match ctx.requester.lamports.checked_add(refund) {
        Some(v) => v,
        None => { return Err(AgentLinkError::ArithmeticOverflow); },
    };
    ctx.escrow.lamports = held;
    ctx.requester.lamports = balance;
    ctx.requester_agent.data.total_spent = spent;
    ctx.escrow.data.status = STATUS_CANCELLED;
    ctx.escrow.data.amount = 0;
    Ok(())
}

/// Why a dispute is rejected, if it is.
pub open spec fn dispute_job_rejection(ctx: DisputeJob) -> Option<AgentLinkError> {
    if ctx.caller.key != ctx.caller_agent.data.authority {
        Some(AgentLinkError::Unauthorized)
    } else if next_status(ctx.escrow.data.status, JobOp::Dispute) is None {
        Some(AgentLinkError::InvalidJobStatus)
    } else if ctx.caller_agent.key != ctx.escrow.data.requester && ctx.caller_agent.key
        != ctx.escrow.data.worker {
        Some(AgentLinkError::Unauthorized)
    } else {
        None
    }
}

/// What a dispute leaves: the job disputed, everything else as it was.
pub open spec fn disputed(ctx: DisputeJob) -> DisputeJob {
    DisputeJob {
        escrow: EscrowEntry {
            data: EscrowAccount { status: STATUS_DISPUTED, ..ctx.escrow.data },
            ..ctx.escrow
        },
        ..ctx
    }
}

/// Disputes a job that is in progress or awaits approval. Only the authority
/// of the job's requester or of its worker may dispute. Nothing leads on from
/// a disputed job; the escrowed amount stays where it is.
pub fn dispute_job(ctx: &mut DisputeJob) -> (res: Result<(), AgentLinkError>)
    ensures
        res == match dispute_job_rejection(*old(ctx)) {
            Some(e) => Err::<(), AgentLinkError>(e),
            None => Ok(()),
        },
        res is Err ==> *final(ctx) == *old(ctx),
        old(ctx).wf() ==> final(ctx).wf(),
        res is Ok ==> *final(ctx) == disputed(*old(ctx)),
{
    if !ctx.caller.key.same(&ctx.caller_agent.data.authority) {
        return Err(AgentLinkError::Unauthorized);
    }
    if !(ctx.escrow.data.status == STATUS_IN_PROGRESS || ctx.escrow.data.status
        == STATUS_PENDING_APPROVAL) {
        return Err(AgentLinkError::InvalidJobStatus);
    }
    if !ctx.caller_agent.key.same(&ctx.escrow.data.requester) && !ctx.caller_agent.key.same(
        &ctx.escrow.data.worker,
    ) {
        return Err(AgentLinkError::Unauthorized);
    }
    ctx.escrow.data.status = STATUS_DISPUTED;
    Ok(())
}

} // verus!
