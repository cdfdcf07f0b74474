//! Payment splitting: the share of a payout that goes to an agent's creator.

use vstd::prelude::*;

verus! {

/// Basis points in a whole: 10000 bps are 100%.
pub const BPS_DENOMINATOR: u64 = 10000;

/// Largest share, in basis points, that an agent may route to its creator.
pub const MAX_SPLIT_BPS: u16 = 5000;

/// Share that a newly registered agent routes to its creator.
pub const DEFAULT_SPLIT_BPS: u16 = 1000;

/// The creator's part of `amount` at `split_bps` basis points, rounded down.
pub open spec fn creator_share(amount: nat, split_bps: nat) -> nat {
    (amount * split_bps) / 10000
}

/// The worker's part of `amount`: what the creator's part leaves.
pub open spec fn worker_share(amount: nat, split_bps: nat) -> int {
    amount - creator_share(amount, split_bps)
}

/// At no more than 10000 basis points the creator's part never exceeds the amount.
pub proof fn lemma_creator_share_bounded(amount: nat, split_bps: nat)
    requires
        split_bps <= 10000,
    ensures
        creator_share(amount, split_bps) <= amount,
{
    assert(amount * split_bps <= amount * 10000) by (nonlinear_arith)
        requires
            split_bps <= 10000,
    ;
    assert((amount * split_bps) / 10000 <= amount);
}

/// The two parts of a payout.
#[derive(Clone, Copy, Debug, PartialEq, Eq, Structural)]
pub struct Payout {
    /// What the worker's creator receives.
    pub creator_amount: u64,
    /// What the worker receives.
    pub worker_amount: u64,
}

/// Splits `amount` between creator and worker at `split_bps` basis points.
///
/// The rate is not validated here beyond what the subtraction needs: callers
/// keep it at or below `MAX_SPLIT_BPS`. Above 10000 basis points the creator's
/// part could exceed the amount, and no split exists.
pub fn split_payment(amount: u64, split_bps: u16) -> (payout: Option<Payout>)
    ensures
        payout is Some <==> creator_share(amount as nat, split_bps as nat) <= amount,
        split_bps <= 10000 ==> payout is Some,
        payout matches Some(p) ==> {
            &&& p.creator_amount == creator_share(amount as nat, split_bps as nat)
            &&& p.worker_amount == worker_share(amount as nat, split_bps as nat)
            &&& p.creator_amount + p.worker_amount == amount
        },
{
    let wide: u128 = amount as u128;
    let rate: u128 = split_bps as u128;
    assert(wide * rate <= 0xffff_ffff_ffff_ffff * 0xffff) by (nonlinear_arith)
        requires
            wide <= 0xffff_ffff_ffff_ffff,
            rate <= 0xffff,
    ;
    let product: u128 = wide * rate;
    let creator_wide: u128 = product / 10000;
    proof {
        if split_bps <= 10000 {
            lemma_creator_share_bounded(amount as nat, split_bps as nat);
        }
    }
    if creator_wide > wide {
        return None;
    }
    let creator_amount: u64 = creator_wide as u64;
    Some(Payout { creator_amount, worker_amount: amount - creator_amount })
}

} // verus!
