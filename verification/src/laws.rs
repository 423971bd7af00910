use vstd::prelude::*;

use crate::governance::Governance;
use crate::governance::can_tally;
use crate::governance::submit_vote_spec;
use crate::policy::InsurancePolicy;
use crate::policy::adjust_coverage_spec;
use crate::policy::approve_claim_policy_spec;
use crate::policy::approve_claim_pool_spec;
use crate::policy::cancel_policy_spec;
use crate::policy::expires_now;
use crate::policy::process_expiration_spec;
use crate::pool::InsurancePool;
use crate::pool::collect_premium_spec;
use crate::pool::withdraw_premium_spec;

verus! {

/// One operation against a pool and a policy written against it, named by
/// the executable function it stands for. Each carries exactly the inputs
/// that reach the records; everything else (identities, timestamps of
/// history entries) leaves the accounting untouched. A purchase moves the
/// pool exactly as `CollectPremium` does — its contract says so — so these
/// operations cover it too.
pub enum LedgerOp {
    CollectPremium { amount: u64 },
    Withdraw { amount: u64 },
    ApproveClaim,
    Cancel { now: i64 },
    Expire { now: i64 },
    AdjustCoverage { new_coverage_amount: u64 },
}

/// The records a policy's lifecycle touches: the shared pool and the policy
/// itself.
pub struct LedgerState {
    pub pool: InsurancePool,
    pub policy: InsurancePolicy,
}

/// How one operation moves the ledger — exactly as the executable operation
/// of the same name says in its contract, with a failed operation leaving
/// both records as they were (every operation is atomic and all-or-nothing).
pub open spec fn ledger_step(state: LedgerState, op: LedgerOp) -> LedgerState {
    match op {
        LedgerOp::CollectPremium { amount } => LedgerState {
            pool: collect_premium_spec(state.pool, amount),
            ..state
        },
        LedgerOp::Withdraw { amount } => LedgerState {
            pool: withdraw_premium_spec(state.pool, amount),
            ..state
        },
        LedgerOp::ApproveClaim => LedgerState {
            pool: approve_claim_pool_spec(state.pool, state.policy),
            policy: approve_claim_policy_spec(state.pool, state.policy),
        },
        LedgerOp::Cancel { now } => LedgerState {
            policy: cancel_policy_spec(state.policy, now),
            ..state
        },
        LedgerOp::Expire { now } => LedgerState {
            policy: process_expiration_spec(state.policy, now),
            ..state
        },
        LedgerOp::AdjustCoverage { new_coverage_amount } => LedgerState {
            policy: adjust_coverage_spec(state.policy, new_coverage_amount),
            ..state
        },
    }
}

/// The ledger after a whole sequence of operations, applied left to right.
pub open spec fn ledger_after(state: LedgerState, ops: Seq<LedgerOp>) -> LedgerState
    decreases ops.len(),
{
    if ops.len() == 0 {
        state
    } else {
        ledger_after(ledger_step(state, ops[0]), ops.drop_first())
    }
}

/// One operation keeps the pool solvent: whichever operation runs, and
/// whether it succeeds or fails, claims paid still do not exceed premiums
/// collected afterwards.
pub proof fn lemma_step_preserves_solvency(state: LedgerState, op: LedgerOp)
    requires
        state.pool.solvent(),
    ensures
        ledger_step(state, op).pool.solvent(),
{
}

/// Solvency invariant: a solvent pool stays solvent under every sequence of
/// operations — claim approvals and withdrawals in particular. Every prefix
/// of a sequence is itself a sequence, so the invariant holds after every
/// single operation along the way, not only at the end.
pub proof fn lemma_solvency_invariant(state: LedgerState, ops: Seq<LedgerOp>)
    requires
        state.pool.solvent(),
    ensures
        ledger_after(state, ops).pool.solvent(),
    decreases ops.len(),
{
    if ops.len() > 0 {
        lemma_step_preserves_solvency(state, ops[0]);
        lemma_solvency_invariant(ledger_step(state, ops[0]), ops.drop_first());
    }
}

/// One operation never revives a policy: the policy is active afterwards
/// only if it already was before.
pub proof fn lemma_step_never_reactivates(state: LedgerState, op: LedgerOp)
    ensures
        ledger_step(state, op).policy.is_active ==> state.policy.is_active,
{
}

/// Monotonic termination: once a policy is terminated, no sequence of
/// operations sets it active again.
pub proof fn lemma_termination_is_monotonic(state: LedgerState, ops: Seq<LedgerOp>)
    requires
        !state.policy.is_active,
    ensures
        !ledger_after(state, ops).policy.is_active,
    decreases ops.len(),
{
    if ops.len() > 0 {
        lemma_step_never_reactivates(state, ops[0]);
        lemma_termination_is_monotonic(ledger_step(state, ops[0]), ops.drop_first());
    }
}

/// Idempotent expiration: after one expiration pass past the policy's end,
/// the policy is terminated, and a second pass — at the same time or any
/// later reading of the clock — leaves it exactly as it is and reports no
/// second expiration signal, so nothing is logged or booked twice.
pub proof fn lemma_expiration_idempotent(policy: InsurancePolicy, now1: i64, now2: i64)
    requires
        now1 > policy.end_time,
        now2 > policy.end_time,
    ensures
        !process_expiration_spec(policy, now1).is_active,
        process_expiration_spec(process_expiration_spec(policy, now1), now2)
            == process_expiration_spec(policy, now1),
        !expires_now(process_expiration_spec(policy, now1), now2),
{
}

/// An expiration pass touches no pool record at all.
pub proof fn lemma_expiration_leaves_pool(state: LedgerState, now: i64)
    ensures
        ledger_step(state, LedgerOp::Expire { now }).pool == state.pool,
{
}

/// How many of a sequence of submitted votes were yes votes.
pub open spec fn count_yes(votes: Seq<bool>) -> int
    decreases votes.len(),
{
    if votes.len() == 0 {
        0
    } else {
        (if votes[0] {
            1int
        } else {
            0int
        }) + count_yes(votes.drop_first())
    }
}

/// The governance tally after a whole sequence of vote submissions, counted
/// left to right.
pub open spec fn tally_after(governance: Governance, votes: Seq<bool>) -> Governance
    decreases votes.len(),
{
    if votes.len() == 0 {
        governance
    } else {
        tally_after(submit_vote_spec(governance, votes[0]), votes.drop_first())
    }
}

/// How many vote records a sequence of submissions creates: one per
/// submission that was counted into the tally.
pub open spec fn records_created(governance: Governance, votes: Seq<bool>) -> int
    decreases votes.len(),
{
    if votes.len() == 0 {
        0
    } else {
        (if can_tally(governance, votes[0]) {
            1int
        } else {
            0int
        }) + records_created(submit_vote_spec(governance, votes[0]), votes.drop_first())
    }
}

/// No sequence holds more yes votes than votes.
pub proof fn lemma_count_yes_bounds(votes: Seq<bool>)
    ensures
        0 <= count_yes(votes) <= votes.len(),
    decreases votes.len(),
{
    if votes.len() > 0 {
        lemma_count_yes_bounds(votes.drop_first());
    }
}

/// Vote tally consistency: as long as neither counter wraps, a sequence of
/// submissions with v yes votes among them raises `yes_votes` by exactly v
/// and `no_votes` by exactly the remaining count, leaves `total_proposals`
/// unmoved, and creates exactly one vote record per submission.
pub proof fn lemma_vote_tally_consistent(governance: Governance, votes: Seq<bool>)
    requires
        governance.yes_votes + count_yes(votes) <= u64::MAX,
        governance.no_votes + (votes.len() - count_yes(votes)) <= u64::MAX,
    ensures
        tally_after(governance, votes).yes_votes == governance.yes_votes + count_yes(votes),
        tally_after(governance, votes).no_votes == governance.no_votes + votes.len() - count_yes(
            votes,
        ),
        tally_after(governance, votes).total_proposals == governance.total_proposals,
        records_created(governance, votes) == votes.len(),
    decreases votes.len(),
{
    if votes.len() > 0 {
        lemma_count_yes_bounds(votes.drop_first());
        lemma_vote_tally_consistent(submit_vote_spec(governance, votes[0]), votes.drop_first());
    }
}

} // verus!
