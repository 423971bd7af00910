use insurance_protocol::Identity;
use insurance_protocol::adjust_coverage;
use insurance_protocol::InsuranceError;
use insurance_protocol::InsurancePolicy;
use insurance_protocol::approve_claim;
use insurance_protocol::cancel_policy;
use insurance_protocol::collect_premium;
use insurance_protocol::initialize_pool;
use insurance_protocol::process_policy_expiration;
use insurance_protocol::submit_governance_vote;
use insurance_protocol::withdraw_premium;
use insurance_protocol::governance::Governance;
use insurance_protocol::policy::COVERAGE_DURATION_SECONDS;

fn thirty_day_policy(premium: u64, coverage: u64) -> InsurancePolicy {
    InsurancePolicy {
        owner: Identity { id: 7 },
        deposit_amount: 0,
        premium_amount: premium,
        coverage_amount: coverage,
        start_time: 0,
        end_time: COVERAGE_DURATION_SECONDS,
        is_active: true,
    }
}

#[test]
fn pro_rata_refund_half_elapsed() {
    // 30 days of coverage, premium 100, canceled half way: half comes back
    let mut policy = thirty_day_policy(100, 5000);
    assert_eq!(policy.end_time, 2_592_000);
    assert_eq!(cancel_policy(&mut policy, 1_296_000), Ok(50));
}

#[test]
fn pro_rata_refund_nothing_elapsed() {
    let mut policy = thirty_day_policy(100, 5000);
    assert_eq!(cancel_policy(&mut policy, 0), Ok(100));
}

#[test]
fn pro_rata_refund_floor_at_last_second() {
    let mut policy = thirty_day_policy(100, 5000);
    assert_eq!(cancel_policy(&mut policy, 2_591_999), Ok(0));
}

#[test]
fn solvency_holds_along_claim_and_withdraw_sequence() {
    let mut pool = initialize_pool(Identity { id: 1 });
    assert_eq!(collect_premium(&mut pool, 10_000), Ok(()));
    let mut first = thirty_day_policy(100, 4000);
    let mut second = thirty_day_policy(100, 5000);
    let mut third = thirty_day_policy(100, 2000);

    assert_eq!(approve_claim(&mut pool, &mut first), Ok(()));
    assert!(pool.total_claims_paid <= pool.total_premium_collected);

    assert_eq!(approve_claim(&mut pool, &mut second), Ok(()));
    assert!(pool.total_claims_paid <= pool.total_premium_collected);

    // surplus is 1000 now; paying 2000 more would break solvency
    assert_eq!(
        approve_claim(&mut pool, &mut third),
        Err(InsuranceError::InsufficientFunds)
    );
    assert!(pool.total_claims_paid <= pool.total_premium_collected);

    assert_eq!(withdraw_premium(&mut pool, 1000), Ok(()));
    assert!(pool.total_claims_paid <= pool.total_premium_collected);
    assert_eq!(pool.total_premium_collected, 9000);
    assert_eq!(pool.total_claims_paid, 9000);
}

#[test]
fn insolvent_claim_leaves_both_records() {
    let mut pool = initialize_pool(Identity { id: 1 });
    assert_eq!(collect_premium(&mut pool, 4999), Ok(()));
    let mut policy = thirty_day_policy(100, 5000);
    let before_pool = pool;
    let before_policy = policy;
    assert_eq!(
        approve_claim(&mut pool, &mut policy),
        Err(InsuranceError::InsufficientFunds)
    );
    assert_eq!(pool, before_pool);
    assert_eq!(policy, before_policy);
    assert!(policy.is_active);
}

#[test]
fn termination_is_monotonic() {
    let mut policy = thirty_day_policy(100, 5000);
    assert_eq!(cancel_policy(&mut policy, 10), Ok(99));
    assert!(!policy.is_active);

    // nothing brings it back: not another cancel, a claim, an expiration
    // pass, or a coverage adjustment
    let mut pool = initialize_pool(Identity { id: 1 });
    assert_eq!(collect_premium(&mut pool, 10_000), Ok(()));
    assert!(cancel_policy(&mut policy, 20).is_err());
    assert!(!policy.is_active);
    assert!(approve_claim(&mut pool, &mut policy).is_err());
    assert!(!policy.is_active);
    assert_eq!(process_policy_expiration(&mut policy, 5_000_000), Ok(()));
    assert!(!policy.is_active);
    assert!(adjust_coverage(&mut policy, 1).is_err());
    assert!(!policy.is_active);
}

#[test]
fn expiration_is_idempotent() {
    let mut policy = thirty_day_policy(100, 5000);
    let after_end = COVERAGE_DURATION_SECONDS + 1;

    // first pass terminates and reports the expiration once
    assert_eq!(
        process_policy_expiration(&mut policy, after_end),
        Err(InsuranceError::PolicyExpired)
    );
    assert!(!policy.is_active);
    let after_first = policy;

    // second pass changes nothing and reports nothing
    assert_eq!(process_policy_expiration(&mut policy, after_end), Ok(()));
    assert_eq!(policy, after_first);
    assert!(!policy.is_active);
}

#[test]
fn vote_tally_counts_each_submission() {
    let mut governance = Governance { yes_votes: 40, no_votes: 17, total_proposals: 3 };
    let voter = Identity { id: 11 };
    let votes = [true, false, true, true, false, true];
    let mut records = Vec::new();
    for (i, &vote) in votes.iter().enumerate() {
        records.push(submit_governance_vote(&mut governance, voter, 2, vote, i as i64).unwrap());
    }
    // 6 submissions, 4 yes and 2 no, on top of the prior tally
    assert_eq!(records.len(), 6);
    assert_eq!(governance.yes_votes, 40 + 4);
    assert_eq!(governance.no_votes, 17 + 2);
    assert_eq!(governance.total_proposals, 3);
    // every submission left its own record, repeat voter and all
    for (i, record) in records.iter().enumerate() {
        assert_eq!(record.voter, voter);
        assert_eq!(record.proposal_id, 2);
        assert_eq!(record.vote, votes[i]);
        assert_eq!(record.timestamp, i as i64);
    }
}
