//! The agent registry: registration, the creator's share, and withdrawals.

use vstd::prelude::*;
use crate::context::{ConfigureSplit, RegisterAgent, Withdraw};
use crate::error::AgentLinkError;
use crate::split::{DEFAULT_SPLIT_BPS, MAX_SPLIT_BPS};
use crate::state::{byte_len, AgentAccount, AgentEntry, Wallet, MAX_NAME_LENGTH};

verus! {

/// Why a registration is rejected, if it is.
pub open spec fn register_agent_rejection(
    ctx: RegisterAgent,
    name: Seq<char>,
    registration_cost: u64,
) -> Option<AgentLinkError> {
    if byte_len(name) > 32 {
        Some(AgentLinkError::NameTooLong)
    } else if byte_len(name) == 0 {
        Some(AgentLinkError::NameEmpty)
    } else if ctx.agent is Some {
        Some(AgentLinkError::AccountInUse)
    } else if ctx.creator.lamports < registration_cost {
        Some(AgentLinkError::InsufficientFunds)
    } else {
        None
    }
}

/// Whether `after` is what a registration leaves of `before`: the slot holds
/// the new agent with `registration_cost` in it, and the creator has paid that.
pub open spec fn agent_registered(
    before: RegisterAgent,
    name: Seq<char>,
    now: i64,
    registration_cost: u64,
    after: RegisterAgent,
) -> bool {
    &&& after.agent matches Some(agent)
    &&& agent.key == before.agent_key
    &&& agent.lamports == registration_cost
    &&& agent.data.bump == before.bump
    &&& agent.data.name@ == name
    &&& agent.data.creator == before.creator.key
    &&& agent.data.authority == before.creator.key
    &&& agent.data.created_at == now
    &&& agent.data.creator_signed
    &&& !agent.data.verified
    &&& agent.data.successful_jobs == 0
    &&& agent.data.total_earned == 0
    &&& agent.data.total_spent == 0
    &&& agent.data.reputation_score == 0
    &&& agent.data.creator_split_bps == DEFAULT_SPLIT_BPS
    &&& after.creator == (Wallet {
        lamports: (before.creator.lamports - registration_cost) as u64,
        ..before.creator
    })
    &&& after.agent_key == before.agent_key
    &&& after.bump == before.bump
}

/// Registers an agent under `name` for the signer, who becomes its creator
/// and its authority and pays `registration_cost`, which the new record's
/// slot then holds.
///
/// The new agent is unverified, has no jobs, earnings, spending or reputation,
/// and routes the default share to its creator. `now` is the time of the call.
/// An agent whose key is taken is not registered again.
pub fn register_agent(
    ctx: &mut RegisterAgent,
    name: String,
    now: i64,
    registration_cost: u64,
) -> (res: Result<(), AgentLinkError>)
    ensures
        res == match register_agent_rejection(*old(ctx), name@, registration_cost) {
            Some(e) => Err::<(), AgentLinkError>(e),
            None => Ok(()),
        },
        res is Err ==> *final(ctx) == *old(ctx),
        old(ctx).wf() ==> final(ctx).wf(),
        res is Ok ==> agent_registered(*old(ctx), name@, now, registration_cost, *final(ctx)),
{
    let length: usize = name.as_str().as_bytes().len();
    if length > MAX_NAME_LENGTH {
        return Err(AgentLinkError::NameTooLong);
    }
    if length == 0 {
        return Err(AgentLinkError::NameEmpty);
    }
    if ctx.agent.is_some() {
        return Err(AgentLinkError::AccountInUse);
    }
    let balance = match ctx.creator.lamports.checked_sub(registration_cost) {
        Some(v) => v,
        None => { return Err(AgentLinkError::InsufficientFunds); },
    };
    ctx.creator.lamports = balance;
    ctx.agent = Some(
        AgentEntry {
            key: ctx.agent_key,
            lamports: registration_cost,
            data: AgentAccount {
                bump: ctx.bump,
                name,
                creator: ctx.creator.key,
                authority: ctx.creator.key,
                created_at: now,
                creator_signed: true,
                verified: false,
                successful_jobs: 0,
                total_earned: 0,
                total_spent: 0,
                reputation_score: 0,
                creator_split_bps: DEFAULT_SPLIT_BPS,
            },
        },
    );
    Ok(())
}

/// Why a change of the creator's share is rejected, if it is.
pub open spec fn configure_split_rejection(
    ctx: ConfigureSplit,
    new_split_bps: u16,
) -> Option<AgentLinkError> {
    if ctx.authority.key != ctx.agent.data.authority {
        Some(AgentLinkError::Unauthorized)
    } else if new_split_bps > 5000 {
        Some(AgentLinkError::SplitTooHigh)
    } else {
        None
    }
}

/// What a change of the creator's share leaves: the new share, nothing else changed.
pub open spec fn split_configured(ctx: ConfigureSplit, new_split_bps: u16) -> ConfigureSplit {
    ConfigureSplit {
        agent: AgentEntry {
            data: AgentAccount { creator_split_bps: new_split_bps, ..ctx.agent.data },
            ..ctx.agent
        },
        ..ctx
    }
}

/// Sets the share of each payout that goes to the agent's creator, at most
/// 5000 basis points. Only the agent's authority may set it.
pub fn configure_split(
    ctx: &mut ConfigureSplit,
    new_split_bps: u16,
) -> (res: Result<(), AgentLinkError>)
    ensures
        res == match configure_split_rejection(*old(ctx), new_split_bps) {
            Some(e) => Err::<(), AgentLinkError>(e),
            None => Ok(()),
        },
        res is Err ==> *final(ctx) == *old(ctx),
        old(ctx).wf() ==> final(ctx).wf(),
        res is Ok ==> *final(ctx) == split_configured(*old(ctx), new_split_bps),
        old(ctx).agent.data.creator_split_bps <= MAX_SPLIT_BPS
            ==> final(ctx).agent.data.creator_split_bps <= MAX_SPLIT_BPS,
{
    if !ctx.authority.key.same(&ctx.agent.data.authority) {
        return Err(AgentLinkError::Unauthorized);
    }
    if new_split_bps > MAX_SPLIT_BPS {
        return Err(AgentLinkError::SplitTooHigh);
    }
    ctx.agent.data.creator_split_bps = new_split_bps;
    Ok(())
}

/// What an agent may withdraw: its balance above the reserved minimum, or
/// nothing where the balance is below it.
pub open spec fn available_balance(balance: u64, reserved_minimum: u64) -> nat {
    if balance >= reserved_minimum {
        (balance - reserved_minimum) as nat
    } else {
        0
    }
}

/// What a withdrawal of `amount` takes: all that is available where `amount`
/// is zero, else `amount`.
pub open spec fn withdrawal_amount(amount: u64, balance: u64, reserved_minimum: u64) -> nat {
    if amount == 0 {
        available_balance(balance, reserved_minimum)
    } else {
        amount as nat
    }
}

/// Why a withdrawal is rejected, if it is.
pub open spec fn withdraw_rejection(
    ctx: Withdraw,
    amount: u64,
    reserved_minimum: u64,
) -> Option<AgentLinkError> {
    let taken = withdrawal_amount(amount, ctx.agent.lamports, reserved_minimum);
    if ctx.authority.key != ctx.agent.data.authority {
        Some(AgentLinkError::Unauthorized)
    } else if taken > available_balance(ctx.agent.lamports, reserved_minimum) {
        Some(AgentLinkError::InsufficientFunds)
    } else if taken == 0 {
        Some(AgentLinkError::NothingToWithdraw)
    } else if ctx.authority.lamports + taken > u64::MAX {
        Some(AgentLinkError::ArithmeticOverflow)
    } else {
        None
    }
}

/// What a withdrawal leaves: what was taken has moved from the agent's
/// balance to the wallet.
pub open spec fn withdrawn(ctx: Withdraw, amount: u64, reserved_minimum: u64) -> Withdraw {
    let taken = withdrawal_amount(amount, ctx.agent.lamports, reserved_minimum);
    Withdraw {
        agent: AgentEntry { lamports: (ctx.agent.lamports - taken) as u64, ..ctx.agent },
        authority: Wallet { lamports: (ctx.authority.lamports + taken) as u64, ..ctx.authority },
    }
}

/// Moves earnings from the agent's balance to the wallet of its authority:
/// `amount`, or all that is available where `amount` is zero.
///
/// `reserved_minimum` is the balance that the agent's slot must keep. Only
/// the agent's authority may withdraw.
pub fn withdraw(
    ctx: &mut Withdraw,
    amount: u64,
    reserved_minimum: u64,
) -> (res: Result<(), AgentLinkError>)
    ensures
        res == match withdraw_rejection(*old(ctx), amount, reserved_minimum) {
            Some(e) => Err::<(), AgentLinkError>(e),
            None => Ok(()),
        },
        res is Err ==> *final(ctx) == *old(ctx),
        old(ctx).wf() ==> final(ctx).wf(),
        res is Ok ==> *final(ctx) == withdrawn(*old(ctx), amount, reserved_minimum),
        res is Ok ==> final(ctx).agent.lamports >= reserved_minimum,
{
    if !ctx.authority.key.same(&ctx.agent.data.authority) {
        return Err(AgentLinkError::Unauthorized);
    }
    let available: u64 = match ctx.agent.lamports.checked_sub(reserved_minimum) {
        Some(v) => v,
        None => 0,
    };
    let taken: u64 = if amount == 0 {
        available
    } else {
        amount
    };
    if taken > available {
        return Err(AgentLinkError::InsufficientFunds);
    }
    if taken == 0 {
        return Err(AgentLinkError::NothingToWithdraw);
    }
    let balance = match ctx.authority.lamports.checked_add(taken) {
        Some(v) => v,
        None => { return Err(AgentLinkError::ArithmeticOverflow); },
    };
    ctx.agent.lamports = ctx.agent.lamports - taken;
    ctx.authority.lamports = balance;
    Ok(())
}

} // verus!
