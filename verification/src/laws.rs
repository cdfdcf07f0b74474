//! What holds of the operations taken together.

use vstd::prelude::*;
use crate::agent::{
    available_balance, configure_split_rejection, split_configured, withdraw_rejection,
    withdrawal_amount, withdrawn,
};
use crate::context::{
    ApproveJob, CancelJob, ClaimTimeout, CompleteJob, ConfigureSplit, CreateJob, DisputeJob,
    HireAgent, Withdraw,
};
use crate::error::AgentLinkError;
use crate::job::{
    approve_job_rejection, approved, cancel_job_rejection, cancelled, claim_timeout_rejection,
    claimed, complete_job_rejection, completed, create_job_rejection, dispute_job_rejection,
    disputed, hire_agent_rejection, hired, job_created, next_status, JobOp,
};
use crate::payout::{paid_creator, paid_escrow, paid_worker, payout_fits};
use crate::reputation::reputation_of;
use crate::split::{creator_share, worker_share};
use crate::state::{
    AgentEntry, EscrowEntry, Wallet, STATUS_CANCELLED, STATUS_COMPLETED, STATUS_DISPUTED,
    STATUS_IN_PROGRESS, STATUS_OPEN, STATUS_PENDING_APPROVAL,
};

verus! {

/// A split at no more than 5000 basis points neither creates nor destroys
/// value: the two parts are within the amount and add up to it, and the
/// creator's part is at most half.
pub proof fn lemma_split_is_exact(amount: u64, split_bps: u16)
    requires
        split_bps <= 5000,
    ensures
        creator_share(amount as nat, split_bps as nat) + worker_share(
            amount as nat,
            split_bps as nat,
        ) == amount,
        0 <= worker_share(amount as nat, split_bps as nat) <= amount,
        2 * creator_share(amount as nat, split_bps as nat) <= amount,
{
    let a = amount as nat;
    let b = split_bps as nat;
    assert(a * b <= a * 5000) by (nonlinear_arith)
        requires
            b <= 5000,
    ;
}

/// A payout moves value and makes none: what the escrow, the worker and the
/// creator's wallet hold together is the same before and after.
pub proof fn lemma_payout_conserves_value(escrow: EscrowEntry, worker: AgentEntry, creator: Wallet)
    requires
        payout_fits(escrow, worker, creator),
    ensures
        paid_escrow(escrow).lamports + paid_worker(escrow, worker).lamports + paid_creator(
            escrow,
            worker,
            creator,
        ).lamports == escrow.lamports + worker.lamports + creator.lamports,
{
}

/// The agent after one attempt to change its creator's share: changed where
/// the attempt is admitted, as it was where it is rejected.
pub open spec fn after_split_change(
    agent: AgentEntry,
    signer: Wallet,
    new_split_bps: u16,
) -> AgentEntry {
    let ctx = ConfigureSplit { agent, authority: signer };
    if configure_split_rejection(ctx, new_split_bps) is None {
        split_configured(ctx, new_split_bps).agent
    } else {
        agent
    }
}

/// The agent after a sequence of attempts to change its creator's share, each
/// by some signer and with some share.
pub open spec fn after_split_changes(agent: AgentEntry, attempts: Seq<(Wallet, u16)>) -> AgentEntry
    decreases attempts.len(),
{
    if attempts.len() == 0 {
        agent
    } else {
        after_split_change(
            after_split_changes(agent, attempts.drop_last()),
            attempts.last().0,
            attempts.last().1,
        )
    }
}

/// Whatever is attempted, by whomever and in whatever order, the creator's
/// share of a well-formed agent never exceeds 5000 basis points, and the agent
/// stays well formed.
pub proof fn lemma_split_never_exceeds_maximum(agent: AgentEntry, attempts: Seq<(Wallet, u16)>)
    requires
        agent.data.wf(),
    ensures
        after_split_changes(agent, attempts).data.creator_split_bps <= 5000,
        after_split_changes(agent, attempts).data.wf(),
    decreases attempts.len(),
{
    if attempts.len() > 0 {
        lemma_split_never_exceeds_maximum(agent, attempts.drop_last());
    }
}

/// The reputation score never exceeds 10000 and grows with the track record:
/// more jobs and more earnings never give a lower score.
pub proof fn lemma_reputation_is_monotonic(jobs: nat, earned: nat, more_jobs: nat, more_earned: nat)
    requires
        jobs <= more_jobs,
        earned <= more_earned,
    ensures
        reputation_of(jobs, earned) <= reputation_of(more_jobs, more_earned) <= 10000,
{
}

/// A payout never lowers the reputation of a well-formed worker, and leaves it
/// at most 10000.
pub proof fn lemma_payout_never_lowers_reputation(escrow: EscrowEntry, worker: AgentEntry)
    requires
        worker.data.wf(),
        worker.data.successful_jobs + 1 <= u32::MAX,
        worker.data.total_earned + escrow.data.amount <= u64::MAX,
    ensures
        worker.data.reputation_score <= paid_worker(escrow, worker).data.reputation_score <= 10000,
{
    lemma_reputation_is_monotonic(
        worker.data.successful_jobs as nat,
        worker.data.total_earned as nat,
        (worker.data.successful_jobs + 1) as nat,
        (worker.data.total_earned + escrow.data.amount) as nat,
    );
}

/// A payout never takes the verification away, and the third paid job gives it.
pub proof fn lemma_payout_keeps_verification(escrow: EscrowEntry, worker: AgentEntry)
    requires
        worker.data.successful_jobs + 1 <= u32::MAX,
    ensures
        worker.data.verified ==> paid_worker(escrow, worker).data.verified,
        paid_worker(escrow, worker).data.successful_jobs >= 3 ==> paid_worker(
            escrow,
            worker,
        ).data.verified,
{
}

/// No operation takes the verification away: whatever an operation leaves of
/// an agent's record, an agent that was verified still is.
pub proof fn lemma_verification_is_never_lost(
    hire: HireAgent,
    complete: CompleteJob,
    approve: ApproveJob,
    claim: ClaimTimeout,
    cancel: CancelJob,
    dispute: DisputeJob,
    configure: ConfigureSplit,
    take: Withdraw,
    now: i64,
    new_split_bps: u16,
    amount: u64,
    reserved_minimum: u64,
)
    ensures
        hire.worker_agent.data.verified ==> hired(hire, now).worker_agent.data.verified,
        hire.requester_agent.data.verified ==> hired(hire, now).requester_agent.data.verified,
        complete.worker_agent.data.verified ==> completed(complete).worker_agent.data.verified,
        approve.worker_agent.data.verified ==> approved(approve).worker_agent.data.verified,
        approve.requester_agent.data.verified ==> approved(approve).requester_agent.data.verified,
        claim.worker_agent.data.verified ==> claimed(claim).worker_agent.data.verified,
        cancel.requester_agent.data.verified ==> cancelled(cancel).requester_agent.data.verified,
        dispute.caller_agent.data.verified ==> disputed(dispute).caller_agent.data.verified,
        configure.agent.data.verified ==> split_configured(
            configure,
            new_split_bps,
        ).agent.data.verified,
        take.agent.data.verified ==> withdrawn(take, amount, reserved_minimum).agent.data.verified,
{
}

/// The transition table, entry by entry: an operation leads from one status to
/// another only along one of these eight ways.
pub proof fn lemma_transition_table(status: u8, op: JobOp, next: u8)
    requires
        next_status(status, op) == Some(next),
    ensures
        (op == JobOp::Hire && status == STATUS_OPEN && next == STATUS_IN_PROGRESS)
        || (op == JobOp::Complete && status == STATUS_IN_PROGRESS && next == STATUS_PENDING_APPROVAL)
        || (op == JobOp::Approve && status == STATUS_PENDING_APPROVAL && next == STATUS_COMPLETED)
        || (op == JobOp::ClaimTimeout && status == STATUS_PENDING_APPROVAL && next == STATUS_COMPLETED)
        || (op == JobOp::Cancel && status == STATUS_OPEN && next == STATUS_CANCELLED)
        || (op == JobOp::Dispute && status == STATUS_IN_PROGRESS && next == STATUS_DISPUTED)
        || (op == JobOp::Dispute && status == STATUS_PENDING_APPROVAL && next == STATUS_DISPUTED),
{
}

/// Nothing leads on from a completed, a disputed or a cancelled job.
pub proof fn lemma_final_statuses_have_no_exit(status: u8, op: JobOp)
    requires
        status == STATUS_COMPLETED || status == STATUS_DISPUTED || status == STATUS_CANCELLED,
    ensures
        next_status(status, op) is None,
{
}

/// Every operation that is admitted moves the job as the table says: from a
/// status from which it may start, to the status that the table gives.
pub proof fn lemma_operations_follow_table(
    hire: HireAgent,
    complete: CompleteJob,
    approve: ApproveJob,
    claim: ClaimTimeout,
    cancel: CancelJob,
    dispute: DisputeJob,
    now: i64,
)
    ensures
        hire_agent_rejection(hire, now) is None ==> next_status(
            hire.escrow.data.status,
            JobOp::Hire,
        ) == Some(hired(hire, now).escrow.data.status),
        complete_job_rejection(complete) is None ==> next_status(
            complete.escrow.data.status,
            JobOp::Complete,
        ) == Some(completed(complete).escrow.data.status),
        approve_job_rejection(approve) is None ==> next_status(
            approve.escrow.data.status,
            JobOp::Approve,
        ) == Some(approved(approve).escrow.data.status),
        claim_timeout_rejection(claim, now) is None ==> next_status(
            claim.escrow.data.status,
            JobOp::ClaimTimeout,
        ) == Some(claimed(claim).escrow.data.status),
        cancel_job_rejection(cancel) is None ==> next_status(
            cancel.escrow.data.status,
            JobOp::Cancel,
        ) == Some(cancelled(cancel).escrow.data.status),
        dispute_job_rejection(dispute) is None ==> next_status(
            dispute.escrow.data.status,
            JobOp::Dispute,
        ) == Some(disputed(dispute).escrow.data.status),
{
}

/// No operation is admitted from a status from which the table does not lead
/// on: each is then rejected.
pub proof fn lemma_rejected_outside_table(
    hire: HireAgent,
    complete: CompleteJob,
    approve: ApproveJob,
    claim: ClaimTimeout,
    cancel: CancelJob,
    dispute: DisputeJob,
    now: i64,
)
    ensures
        next_status(hire.escrow.data.status, JobOp::Hire) is None ==> hire_agent_rejection(
            hire,
            now,
        ) is Some,
        next_status(complete.escrow.data.status, JobOp::Complete) is None
            ==> complete_job_rejection(complete) is Some,
        next_status(approve.escrow.data.status, JobOp::Approve) is None ==> approve_job_rejection(
            approve,
        ) is Some,
        next_status(claim.escrow.data.status, JobOp::ClaimTimeout) is None
            ==> claim_timeout_rejection(claim, now) is Some,
        next_status(cancel.escrow.data.status, JobOp::Cancel) is None ==> cancel_job_rejection(
            cancel,
        ) is Some,
        next_status(dispute.escrow.data.status, JobOp::Dispute) is None ==> dispute_job_rejection(
            dispute,
        ) is Some,
{
}

/// A claim for a job that awaits approval, with the worker and the creator's
/// wallet that the records name, is rejected for the deadline at every time
/// up to the deadline, and is admitted at every later time at which the payout
/// fits.
pub proof fn lemma_claim_waits_for_deadline(ctx: ClaimTimeout, now: i64)
    requires
        ctx.escrow.data.worker == ctx.worker_agent.key,
        ctx.worker_creator.key == ctx.worker_agent.data.creator,
        ctx.escrow.data.status == STATUS_PENDING_APPROVAL,
    ensures
        now <= ctx.escrow.data.deadline ==> claim_timeout_rejection(ctx, now) == Some(
            AgentLinkError::DeadlineNotReached,
        ),
        now > ctx.escrow.data.deadline && payout_fits(
            ctx.escrow,
            ctx.worker_agent,
            ctx.worker_creator,
        ) ==> claim_timeout_rejection(ctx, now) is None,
{
}

/// A claim pays as an approval pays: on the same escrow, worker and creator's
/// wallet the two leave the same escrow, worker and wallet.
pub proof fn lemma_claim_pays_as_approval(approval: ApproveJob, claim: ClaimTimeout)
    requires
        approval.escrow == claim.escrow,
        approval.worker_agent == claim.worker_agent,
        approval.worker_creator == claim.worker_creator,
    ensures
        approved(approval).escrow == claimed(claim).escrow,
        approved(approval).worker_agent == claimed(claim).worker_agent,
        approved(approval).worker_creator == claimed(claim).worker_creator,
{
}

/// The cancellation that follows a creation: the same requester and signer on
/// the escrow that the creation left.
pub open spec fn cancellation_of(created: CreateJob) -> CancelJob {
    CancelJob {
        escrow: created.escrow->0,
        requester_agent: created.requester_agent,
        requester: created.requester,
    }
}

/// Cancelling a job right after its creation undoes the creation: the
/// cancellation is admitted, the wallet gets back exactly the amount it paid,
/// the requester's spending is what it was, and the escrow is left cancelled
/// with nothing in it.
pub proof fn lemma_cancel_undoes_creation(
    before: CreateJob,
    job_id: Seq<char>,
    job_hash: [u8; 32],
    amount: u64,
    timeout_hours: u8,
    now: i64,
    created: CreateJob,
)
    requires
        create_job_rejection(before, job_id, amount, timeout_hours) is None,
        job_created(before, job_id, job_hash, amount, timeout_hours, now, created),
    ensures
        cancel_job_rejection(cancellation_of(created)) is None,
        cancelled(cancellation_of(created)).requester == before.requester,
        cancelled(cancellation_of(created)).requester_agent == before.requester_agent,
        cancelled(cancellation_of(created)).escrow.lamports == 0,
        cancelled(cancellation_of(created)).escrow.data.amount == 0,
        cancelled(cancellation_of(created)).escrow.data.status == STATUS_CANCELLED,
{
}

/// A cancellation that is admitted refunds exactly the escrowed amount and
/// takes exactly that from the requester's spending.
pub proof fn lemma_cancel_refunds_amount(ctx: CancelJob)
    requires
        cancel_job_rejection(ctx) is None,
    ensures
        cancelled(ctx).requester.lamports == ctx.requester.lamports + ctx.escrow.data.amount,
        cancelled(ctx).requester_agent.data.total_spent + ctx.escrow.data.amount
            == ctx.requester_agent.data.total_spent,
        cancelled(ctx).escrow.lamports + ctx.escrow.data.amount == ctx.escrow.lamports,
        cancelled(ctx).escrow.data.amount == 0,
{
}

/// A withdrawal that is admitted never leaves the agent below the reserved
/// minimum, and moves exactly what it takes; a withdrawal of zero takes all
/// that is available and leaves exactly the reserved minimum.
pub proof fn lemma_withdraw_respects_reserve(ctx: Withdraw, amount: u64, reserved_minimum: u64)
    requires
        withdraw_rejection(ctx, amount, reserved_minimum) is None,
    ensures
        withdrawn(ctx, amount, reserved_minimum).agent.lamports >= reserved_minimum,
        withdrawn(ctx, amount, reserved_minimum).agent.lamports + withdrawn(
            ctx,
            amount,
            reserved_minimum,
        ).authority.lamports == ctx.agent.lamports + ctx.authority.lamports,
        amount == 0 ==> {
            &&& withdrawal_amount(amount, ctx.agent.lamports, reserved_minimum)
                == available_balance(ctx.agent.lamports, reserved_minimum)
            &&& withdrawn(ctx, amount, reserved_minimum).agent.lamports == reserved_minimum
            &&& withdrawn(ctx, amount, reserved_minimum).authority.lamports
                == ctx.authority.lamports + ctx.agent.lamports - reserved_minimum
        },
{
}

} // verus!
