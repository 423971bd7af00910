use vstd::arithmetic::div_mod::lemma_div_is_ordered;
use vstd::arithmetic::div_mod::lemma_div_multiples_vanish;
use vstd::arithmetic::mul::lemma_mul_inequality;
use vstd::prelude::*;

use crate::errors::InsuranceError;
use crate::identity::Identity;
use crate::pool::InsurancePool;
use crate::pool::can_collect;
use crate::pool::collect_premium;
use crate::pool::collect_premium_spec;

verus! {

/// The fixed coverage window of every policy: 30 days, in seconds.
pub const COVERAGE_DURATION_SECONDS: i64 = 30 * 24 * 60 * 60;

/// A single coverage agreement: who owns it, what was deposited, what
/// premium was paid, how much a claim against it pays out, and the fixed
/// validity window. `is_active` moves from `true` to `false` exactly once
/// (cancel, claim approval, or expiration) and never back; a terminated
/// policy is final.
#[derive(Clone, Copy, Debug, PartialEq, Eq, Structural)]
pub struct InsurancePolicy {
    pub owner: Identity,
    pub deposit_amount: u64,
    pub premium_amount: u64,
    pub coverage_amount: u64,
    pub start_time: i64,
    pub end_time: i64,
    pub is_active: bool,
}

impl InsurancePolicy {
    /// The shape every policy has from purchase on: its coverage window
    /// spans exactly the fixed duration. No operation moves the window, so
    /// this holds for the policy's whole life.
    pub open spec fn well_formed(self) -> bool {
        self.end_time == self.start_time + COVERAGE_DURATION_SECONDS
    }
}

/// `policy` with its active flag cleared and every other field as it was:
/// the one way a policy ever terminates.
pub open spec fn deactivated(policy: InsurancePolicy) -> InsurancePolicy {
    InsurancePolicy { is_active: false, ..policy }
}

/// The policy a purchase at time `now` creates.
pub open spec fn new_policy(
    owner: Identity,
    deposit_amount: u64,
    premium_amount: u64,
    coverage_amount: u64,
    now: i64,
) -> InsurancePolicy {
    InsurancePolicy {
        owner,
        deposit_amount,
        premium_amount,
        coverage_amount,
        start_time: now,
        end_time: (now + COVERAGE_DURATION_SECONDS) as i64,
        is_active: true,
    }
}

/// Whether a cancellation at time `now` goes through: only an active policy,
/// and only before its end.
pub open spec fn can_cancel(policy: InsurancePolicy, now: i64) -> bool {
    policy.is_active && now < policy.end_time
}

/// The pro-rated refund of a cancellation at time `now`: the premium scaled
/// by the unused share of the coverage window, rounded down.
pub open spec fn pro_rata_refund(policy: InsurancePolicy, now: i64) -> int {
    policy.premium_amount * (policy.end_time - now) / (policy.end_time - policy.start_time)
}

/// How a cancellation at `now` leaves the policy: terminated where it goes
/// through, untouched where it fails.
pub open spec fn cancel_policy_spec(policy: InsurancePolicy, now: i64) -> InsurancePolicy {
    if can_cancel(policy, now) {
        deactivated(policy)
    } else {
        policy
    }
}

/// Whether a claim approval goes through: the policy is active and the
/// pool stays solvent once the coverage amount is added to the claims paid.
pub open spec fn can_approve(pool: InsurancePool, policy: InsurancePolicy) -> bool {
    policy.is_active && pool.total_claims_paid + policy.coverage_amount
        <= pool.total_premium_collected
}

/// The pool after a successful claim approval: the coverage amount is booked
/// as paid out.
pub open spec fn claim_paid(pool: InsurancePool, policy: InsurancePolicy) -> InsurancePool {
    InsurancePool {
        total_claims_paid: (pool.total_claims_paid + policy.coverage_amount) as u64,
        ..pool
    }
}

/// How a claim approval leaves the pool.
pub open spec fn approve_claim_pool_spec(
    pool: InsurancePool,
    policy: InsurancePolicy,
) -> InsurancePool {
    if can_approve(pool, policy) {
        claim_paid(pool, policy)
    } else {
        pool
    }
}

/// How a claim approval leaves the policy.
pub open spec fn approve_claim_policy_spec(
    pool: InsurancePool,
    policy: InsurancePolicy,
) -> InsurancePolicy {
    if can_approve(pool, policy) {
        deactivated(policy)
    } else {
        policy
    }
}

/// Whether time `now` expires the policy: it is still active and the window
/// has passed.
pub open spec fn expires_now(policy: InsurancePolicy, now: i64) -> bool {
    policy.is_active && now > policy.end_time
}

/// How an expiration pass at `now` leaves the policy: terminated where `now`
/// expires it, untouched otherwise. Running it again changes nothing.
pub open spec fn process_expiration_spec(policy: InsurancePolicy, now: i64) -> InsurancePolicy {
    if expires_now(policy, now) {
        deactivated(policy)
    } else {
        policy
    }
}

/// `policy` with its coverage amount replaced and every other field as it
/// was.
pub open spec fn coverage_adjusted(
    policy: InsurancePolicy,
    new_coverage_amount: u64,
) -> InsurancePolicy {
    InsurancePolicy { coverage_amount: new_coverage_amount, ..policy }
}

/// How a coverage adjustment leaves the policy: replaced while active,
/// untouched once terminated.
pub open spec fn adjust_coverage_spec(
    policy: InsurancePolicy,
    new_coverage_amount: u64,
) -> InsurancePolicy {
    if policy.is_active {
        coverage_adjusted(policy, new_coverage_amount)
    } else {
        policy
    }
}

/// Creates a policy for `owner` starting at time `now` and collects its
/// premium into the pool in the same atomic step. Fails with `Overflow`,
/// creating no policy and leaving the pool unchanged, exactly when the
/// premium counter would wrap. The deposit is recorded on the policy but not
/// separately escrowed here; custody of it is an external concern.
pub fn purchase_insurance(
    pool: &mut InsurancePool,
    owner: Identity,
    deposit_amount: u64,
    premium_amount: u64,
    coverage_amount: u64,
    now: i64,
) -> (result: Result<InsurancePolicy, InsuranceError>)
    requires
        now + COVERAGE_DURATION_SECONDS <= i64::MAX,
    ensures
        *final(pool) == collect_premium_spec(*old(pool), premium_amount),
        result is Ok <==> can_collect(*old(pool), premium_amount),
        result matches Ok(policy) ==> policy == new_policy(
            owner,
            deposit_amount,
            premium_amount,
            coverage_amount,
            now,
        ),
        result matches Ok(policy) ==> policy.well_formed() && policy.is_active,
        result matches Err(e) ==> e == InsuranceError::Overflow,
        old(pool).solvent() ==> final(pool).solvent(),
{
    match collect_premium(pool, premium_amount) {
        Ok(()) => {
            let end_time: i64 = now + COVERAGE_DURATION_SECONDS;
            Ok(
                InsurancePolicy {
                    owner,
                    deposit_amount,
                    premium_amount,
                    coverage_amount,
                    start_time: now,
                    end_time,
                    is_active: true,
                },
            )
        },
        Err(e) => Err(e),
    }
}

/// Cancels an active policy at time `now` and reports the pro-rated refund
/// owed to the owner: the premium scaled by the share of the coverage window
/// still ahead, rounded down. The refund never exceeds the premium. On
/// success the caller owes the owner a fund transfer of the refund out of
/// the pool's balance; the transfer itself is the external fund-transfer
/// collaborator's work, and the pool's premium counter is not touched.
/// Fails with `PolicyNotActive` on a terminated policy, and with
/// `PolicyExpired` when `now` has reached `end_time`; either failure leaves
/// the policy unchanged. Callers hand in a policy as a purchase shaped it
/// and a clock reading not before its start: the clock never runs
/// backwards, so both hold for every stored policy.
pub fn cancel_policy(policy: &mut InsurancePolicy, now: i64) -> (result: Result<
    u64,
    InsuranceError,
>)
    requires
        old(policy).well_formed(),
        old(policy).start_time <= now,
    ensures
        *final(policy) == cancel_policy_spec(*old(policy), now),
        result is Ok <==> can_cancel(*old(policy), now),
        result matches Ok(refund) ==> refund == pro_rata_refund(*old(policy), now),
        result matches Ok(refund) ==> refund <= old(policy).premium_amount,
        result matches Err(e) ==> (if !old(policy).is_active {
            e == InsuranceError::PolicyNotActive
        } else {
            e == InsuranceError::PolicyExpired
        }),
        final(policy).is_active ==> old(policy).is_active,
{
    if !policy.is_active {
        return Err(InsuranceError::PolicyNotActive);
    }
    if now >= policy.end_time {
        return Err(InsuranceError::PolicyExpired);
    }
    let remaining_time: i64 = policy.end_time - now;
    let total_duration: i64 = policy.end_time - policy.start_time;
    proof {
        let p: int = policy.premium_amount as int;
        let r: int = remaining_time as int;
        let d: int = total_duration as int;
        lemma_mul_inequality(p, u64::MAX as int, r);
        lemma_mul_inequality(r, d, u64::MAX as int);
        lemma_mul_inequality(r, d, p);
        lemma_div_is_ordered(p * r, p * d, d);
        lemma_div_multiples_vanish(p, d);
        assert(p * r / d <= p);
    }
    let refund_wide: u128 = (policy.premium_amount as u128) * (remaining_time as u128)
        / (total_duration as u128);
    let refund: u64 = refund_wide as u64;
    policy.is_active = false;
    Ok(refund)
}

/// Approves a claim against the pool: books the policy's coverage amount as
/// paid and terminates the policy, in one atomic step. Fails with
/// `PolicyNotActive` on a terminated policy, and with `InsufficientFunds`
/// when paying the claim would push claims paid above premiums collected;
/// either failure leaves both records exactly as they were.
pub fn approve_claim(pool: &mut InsurancePool, policy: &mut InsurancePolicy) -> (result: Result<
    (),
    InsuranceError,
>)
    ensures
        *final(pool) == approve_claim_pool_spec(*old(pool), *old(policy)),
        *final(policy) == approve_claim_policy_spec(*old(pool), *old(policy)),
        result is Ok <==> can_approve(*old(pool), *old(policy)),
        result is Ok ==> result == Ok::<(), InsuranceError>(()),
        result matches Err(e) ==> (if !old(policy).is_active {
            e == InsuranceError::PolicyNotActive
        } else {
            e == InsuranceError::InsufficientFunds
        }),
        old(pool).solvent() ==> final(pool).solvent(),
        final(policy).is_active ==> old(policy).is_active,
{
    if !policy.is_active {
        return Err(InsuranceError::PolicyNotActive);
    }
    let claims_after: u128 = (pool.total_claims_paid as u128) + (policy.coverage_amount as u128);
    if claims_after <= pool.total_premium_collected as u128 {
        pool.total_claims_paid = pool.total_claims_paid + policy.coverage_amount;
        policy.is_active = false;
        Ok(())
    } else {
        Err(InsuranceError::InsufficientFunds)
    }
}

/// One expiration pass at time `now`: an active policy whose window has
/// passed is terminated, and the termination is reported through the
/// `PolicyExpired` value as an informational signal; in every other case
/// this is a no-op success. The mutation stands even when the signal is
/// reported — callers treat the signal as "the policy expired just now",
/// for instance to write the one matching history entry, not as a failure.
/// The pass touches no pool record, so repeating it after the signal
/// changes nothing and signals nothing.
pub fn process_policy_expiration(policy: &mut InsurancePolicy, now: i64) -> (result: Result<
    (),
    InsuranceError,
>)
    ensures
        *final(policy) == process_expiration_spec(*old(policy), now),
        result is Err <==> expires_now(*old(policy), now),
        result is Ok ==> result == Ok::<(), InsuranceError>(()),
        result matches Err(e) ==> e == InsuranceError::PolicyExpired,
        final(policy).is_active ==> old(policy).is_active,
{
    if now > policy.end_time && policy.is_active {
        policy.is_active = false;
        Err(InsuranceError::PolicyExpired)
    } else {
        Ok(())
    }
}

/// Replaces the coverage amount of an active policy, unconditionally: the
/// new amount is not re-validated against the pool's solvency, which the
/// next claim approval checks instead. Fails with `PolicyNotActive`, and
/// leaves the policy unchanged, exactly when the policy is terminated.
pub fn adjust_coverage(policy: &mut InsurancePolicy, new_coverage_amount: u64) -> (result: Result<
    (),
    InsuranceError,
>)
    ensures
        *final(policy) == adjust_coverage_spec(*old(policy), new_coverage_amount),
        result is Ok <==> old(policy).is_active,
        result is Ok ==> result == Ok::<(), InsuranceError>(()),
        result matches Err(e) ==> e == InsuranceError::PolicyNotActive,
        final(policy).is_active ==> old(policy).is_active,
        final(policy).well_formed() <==> old(policy).well_formed(),
{
    if !policy.is_active {
        return Err(InsuranceError::PolicyNotActive);
    }
    policy.coverage_amount = new_coverage_amount;
    Ok(())
}

} // verus!
