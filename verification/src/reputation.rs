//! Reputation scoring: a bounded trust score computed from an agent's track record.

use vstd::prelude::*;

verus! {

/// Base units in one whole unit of value.
pub const LAMPORTS_PER_SOL: u64 = 1_000_000_000;

/// Upper bound of every reputation score.
pub const MAX_REPUTATION: u16 = 10000;

/// Score before clamping: 500 points per successful job and 10 points per whole unit earned.
pub open spec fn raw_reputation(successful_jobs: nat, total_earned: nat) -> nat {
    successful_jobs * 500 + (total_earned / 1_000_000_000) * 10
}

/// The reputation score of a track record: the raw score, capped at 10000.
pub open spec fn reputation_of(successful_jobs: nat, total_earned: nat) -> nat {
    if raw_reputation(successful_jobs, total_earned) < 10000 {
        raw_reputation(successful_jobs, total_earned)
    } else {
        10000
    }
}

/// Computes the reputation score of an agent with the given number of
/// successful jobs and total earnings.
pub fn calculate_reputation(successful_jobs: u32, total_earned: u64) -> (score: u16)
    ensures
        score == reputation_of(successful_jobs as nat, total_earned as nat),
        score <= MAX_REPUTATION,
{
    let jobs: u64 = successful_jobs as u64;
    let job_points: u64 = jobs * 500;
    let earned_points: u64 = (total_earned / LAMPORTS_PER_SOL) * 10;
    let total: u64 = job_points + earned_points;
    if total < 10000 {
        total as u16
    } else {
        10000
    }
}

} // verus!
