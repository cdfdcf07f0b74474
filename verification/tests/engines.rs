use agentlink::error::AgentLinkError;
use agentlink::keys::Pubkey;
use agentlink::reputation::{calculate_reputation, LAMPORTS_PER_SOL, MAX_REPUTATION};
use agentlink::split::{split_payment, Payout, BPS_DENOMINATOR, DEFAULT_SPLIT_BPS, MAX_SPLIT_BPS};
use agentlink::state::{
    AgentAccount, EscrowAccount, MAX_JOB_ID_LENGTH, MAX_NAME_LENGTH, STATUS_CANCELLED,
    STATUS_COMPLETED, STATUS_DISPUTED, STATUS_IN_PROGRESS, STATUS_OPEN, STATUS_PENDING_APPROVAL,
    VERIFICATION_THRESHOLD,
};

#[test]
fn constants_have_their_values() {
    assert_eq!(MAX_NAME_LENGTH, 32);
    assert_eq!(MAX_JOB_ID_LENGTH, 36);
    assert_eq!(LAMPORTS_PER_SOL, 1_000_000_000);
    assert_eq!(MAX_SPLIT_BPS, 5000);
    assert_eq!(DEFAULT_SPLIT_BPS, 1000);
    assert_eq!(VERIFICATION_THRESHOLD, 3);
    assert_eq!(BPS_DENOMINATOR, 10000);
    assert_eq!(MAX_REPUTATION, 10000);
}

#[test]
fn status_codes_are_fixed() {
    assert_eq!(STATUS_OPEN, 0);
    assert_eq!(STATUS_IN_PROGRESS, 1);
    assert_eq!(STATUS_PENDING_APPROVAL, 2);
    assert_eq!(STATUS_COMPLETED, 3);
    assert_eq!(STATUS_DISPUTED, 4);
    assert_eq!(STATUS_CANCELLED, 5);
}

#[test]
fn record_sizes_are_fixed() {
    assert_eq!(
        AgentAccount::SPACE,
        8 + 1 + 4 + MAX_NAME_LENGTH + 32 + 32 + 8 + 1 + 1 + 4 + 8 + 8 + 2 + 2
    );
    assert_eq!(
        EscrowAccount::SPACE,
        8 + 1 + 4 + MAX_JOB_ID_LENGTH + 32 + 32 + 32 + 8 + 1 + 1 + 8 + 8
    );
}

#[test]
fn reputation_of_an_empty_record_is_zero() {
    assert_eq!(calculate_reputation(0, 0), 0);
}

#[test]
fn reputation_counts_jobs_and_whole_units() {
    assert_eq!(calculate_reputation(1, 1_000_000_000), 510);
    assert_eq!(calculate_reputation(1, 0), 500);
    assert_eq!(calculate_reputation(0, 1_000_000_000), 10);
    assert_eq!(calculate_reputation(3, 7_500_000_000), 1570);
}

#[test]
fn reputation_ignores_fractions_of_a_unit() {
    assert_eq!(calculate_reputation(0, 999_999_999), 0);
    assert_eq!(calculate_reputation(2, 1_999_999_999), 1010);
}

#[test]
fn reputation_is_capped() {
    assert_eq!(calculate_reputation(19, 49_000_000_000), 9990);
    assert_eq!(calculate_reputation(20, 0), 10000);
    assert_eq!(calculate_reputation(21, 0), 10000);
    assert_eq!(calculate_reputation(0, 1_000_000_000_000), 10000);
    assert_eq!(calculate_reputation(u32::MAX, u64::MAX), 10000);
}

#[test]
fn reputation_never_falls_as_the_record_grows() {
    let mut last = 0u16;
    let mut earned = 0u64;
    for jobs in 0..40u32 {
        let score = calculate_reputation(jobs, earned);
        assert!(score >= last);
        assert!(score <= 10000);
        last = score;
        earned += 700_000_000;
    }
}

#[test]
fn split_at_the_default_rate() {
    let p = split_payment(1_000_000_000, 1000).unwrap();
    assert_eq!(p, Payout { creator_amount: 100_000_000, worker_amount: 900_000_000 });
}

#[test]
fn split_rounds_the_creator_part_down() {
    let p = split_payment(999, 1000).unwrap();
    assert_eq!(p.creator_amount, 99);
    assert_eq!(p.worker_amount, 900);
    let q = split_payment(1, 5000).unwrap();
    assert_eq!(q.creator_amount, 0);
    assert_eq!(q.worker_amount, 1);
}

#[test]
fn split_at_zero_rate_gives_all_to_the_worker() {
    let p = split_payment(12345, 0).unwrap();
    assert_eq!(p.creator_amount, 0);
    assert_eq!(p.worker_amount, 12345);
}

#[test]
fn split_of_the_largest_amount_does_not_overflow() {
    let p = split_payment(u64::MAX, 5000).unwrap();
    assert_eq!(p.creator_amount, u64::MAX / 2);
    assert_eq!(p.worker_amount, u64::MAX - u64::MAX / 2);
}

#[test]
fn split_parts_add_up() {
    let amounts = [0u64, 1, 2, 3, 9999, 10000, 10001, 123_456_789, u64::MAX - 1, u64::MAX];
    let rates = [0u16, 1, 999, 1000, 2500, 4999, 5000];
    for a in amounts {
        for r in rates {
            let p = split_payment(a, r).unwrap();
            assert_eq!(p.creator_amount as u128 + p.worker_amount as u128, a as u128);
            assert_eq!(p.creator_amount as u128, a as u128 * r as u128 / 10000);
        }
    }
}

#[test]
fn split_is_not_validated_up_to_the_whole() {
    let p = split_payment(1000, 10000).unwrap();
    assert_eq!(p.creator_amount, 1000);
    assert_eq!(p.worker_amount, 0);
    let q = split_payment(1000, 7500).unwrap();
    assert_eq!(q.creator_amount, 750);
    assert_eq!(q.worker_amount, 250);
}

#[test]
fn split_above_the_whole_has_no_worker_part() {
    assert_eq!(split_payment(10000, 10001), None);
    assert_eq!(split_payment(u64::MAX, u16::MAX), None);
    assert_eq!(
        split_payment(9999, 10001),
        Some(Payout { creator_amount: 9999, worker_amount: 0 })
    );
}

#[test]
fn default_key_is_all_zero() {
    assert_eq!(Pubkey::default().to_bytes(), [0u8; 32]);
}

#[test]
fn keys_are_compared_by_their_bytes() {
    let mut bytes = [7u8; 32];
    let a = Pubkey::new_from_array(bytes);
    let b = Pubkey::new_from_array(bytes);
    assert!(a.same(&b));
    bytes[31] = 8;
    let c = Pubkey::new_from_array(bytes);
    assert!(!a.same(&c));
    assert!(!c.same(&a));
    bytes[31] = 7;
    bytes[0] = 0;
    assert!(!a.same(&Pubkey::new_from_array(bytes)));
    assert!(Pubkey::default().same(&Pubkey::new_from_array([0u8; 32])));
}

#[test]
fn key_keeps_its_bytes() {
    let mut bytes = [0u8; 32];
    for (i, b) in bytes.iter_mut().enumerate() {
        *b = i as u8;
    }
    assert_eq!(Pubkey::new_from_array(bytes).to_bytes(), bytes);
}

#[test]
fn every_error_has_its_message() {
    assert_eq!(AgentLinkError::NameTooLong.message(), "Agent name too long (max 32 characters)");
    assert_eq!(AgentLinkError::NameEmpty.message(), "Agent name cannot be empty");
    assert_eq!(AgentLinkError::JobIdTooLong.message(), "Job ID too long (max 36 characters)");
    assert_eq!(AgentLinkError::InvalidAmount.message(), "Invalid amount");
    assert_eq!(
        AgentLinkError::InvalidTimeout.message(),
        "Invalid timeout (must be 24, 48, or 72 hours)"
    );
    assert_eq!(
        AgentLinkError::InvalidJobStatus.message(),
        "Invalid job status for this operation"
    );
    assert_eq!(AgentLinkError::Unauthorized.message(), "Unauthorized");
    assert_eq!(AgentLinkError::InvalidWorker.message(), "Invalid worker");
    assert_eq!(AgentLinkError::InvalidRequester.message(), "Invalid requester");
    assert_eq!(AgentLinkError::InvalidCreator.message(), "Invalid creator");
    assert_eq!(AgentLinkError::DeadlineNotReached.message(), "Deadline not reached");
    assert_eq!(AgentLinkError::SplitTooHigh.message(), "Creator split too high (max 50%)");
    assert_eq!(AgentLinkError::InsufficientFunds.message(), "Insufficient funds");
    assert_eq!(AgentLinkError::NothingToWithdraw.message(), "Nothing to withdraw");
    assert_eq!(AgentLinkError::AccountInUse.message(), "Account already in use");
    assert_eq!(AgentLinkError::ArithmeticOverflow.message(), "Arithmetic overflow");
}
