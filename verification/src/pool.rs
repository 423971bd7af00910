use vstd::prelude::*;

use crate::errors::InsuranceError;
use crate::identity::Identity;

verus! {

/// Aggregate record of a liquidity pool: every premium ever collected (less
/// what was withdrawn again) and every claim paid out of it. A single pool
/// backs all policies of a protocol instance; it is created once and never
/// deleted. Premium payments, liquidity stakes and token premium payments
/// all increase the same counter, so the pool cannot tell them apart.
#[derive(Clone, Copy, Debug, PartialEq, Eq, Structural)]
pub struct InsurancePool {
    pub total_premium_collected: u64,
    pub total_claims_paid: u64,
    pub authority: Identity,
}

impl InsurancePool {
    /// The pool's solvency invariant: claims paid never exceed premiums
    /// collected. Every successful operation of this crate preserves it.
    pub open spec fn solvent(self) -> bool {
        self.total_claims_paid <= self.total_premium_collected
    }
}

/// Whether `amount` more premium still fits the pool's counter.
pub open spec fn can_collect(pool: InsurancePool, amount: u64) -> bool {
    pool.total_premium_collected + amount <= u64::MAX
}

/// The pool after `amount` premium was collected into it.
pub open spec fn premium_collected(pool: InsurancePool, amount: u64) -> InsurancePool {
    InsurancePool {
        total_premium_collected: (pool.total_premium_collected + amount) as u64,
        ..pool
    }
}

/// How a premium collection leaves the pool: the counter grows by `amount`,
/// or, where that would wrap, the pool stays as it was.
pub open spec fn collect_premium_spec(pool: InsurancePool, amount: u64) -> InsurancePool {
    if can_collect(pool, amount) {
        premium_collected(pool, amount)
    } else {
        pool
    }
}

/// Whether the pool's uncommitted surplus covers a withdrawal of `amount`.
/// Only premium not yet owed to approved claims may leave the pool.
pub open spec fn can_withdraw(pool: InsurancePool, amount: u64) -> bool {
    pool.total_premium_collected - pool.total_claims_paid >= amount
}

/// The pool after a withdrawal of `amount`. The withdrawal is debited from
/// `total_premium_collected`, so that counter reads "collected and still
/// held", not "ever collected".
pub open spec fn premium_withdrawn(pool: InsurancePool, amount: u64) -> InsurancePool {
    InsurancePool {
        total_premium_collected: (pool.total_premium_collected - amount) as u64,
        ..pool
    }
}

/// How a withdrawal leaves the pool: debited by `amount` where the surplus
/// covers it, unchanged where it does not.
pub open spec fn withdraw_premium_spec(pool: InsurancePool, amount: u64) -> InsurancePool {
    if can_withdraw(pool, amount) {
        premium_withdrawn(pool, amount)
    } else {
        pool
    }
}

/// Creates a zeroed pool bound to `authority`. Whether a pool record may be
/// created at the target location at all is the storage substrate's check,
/// not this crate's.
pub fn initialize_pool(authority: Identity) -> (pool: InsurancePool)
    ensures
        pool.total_premium_collected == 0,
        pool.total_claims_paid == 0,
        pool.authority == authority,
        pool.solvent(),
{
    InsurancePool { total_premium_collected: 0, total_claims_paid: 0, authority }
}

/// Records `amount` of collected premium in the pool. Fails with `Overflow`,
/// and leaves the pool unchanged, exactly when the counter would wrap.
pub fn collect_premium(pool: &mut InsurancePool, amount: u64) -> (result: Result<
    (),
    InsuranceError,
>)
    ensures
        *final(pool) == collect_premium_spec(*old(pool), amount),
        result is Ok <==> can_collect(*old(pool), amount),
        result is Ok ==> result == Ok::<(), InsuranceError>(()),
        result matches Err(e) ==> e == InsuranceError::Overflow,
        old(pool).solvent() ==> final(pool).solvent(),
{
    if amount <= u64::MAX - pool.total_premium_collected {
        pool.total_premium_collected = pool.total_premium_collected + amount;
        Ok(())
    } else {
        Err(InsuranceError::Overflow)
    }
}

/// Pays out `amount` of the pool's uncommitted surplus to the pool
/// authority. Fails with `InsufficientFunds`, and leaves the pool unchanged,
/// exactly when the surplus is smaller than `amount`. On success the caller
/// owes the recipient a fund transfer of `amount` out of the pool's balance;
/// the transfer itself is the external fund-transfer collaborator's work.
pub fn withdraw_premium(pool: &mut InsurancePool, amount: u64) -> (result: Result<
    (),
    InsuranceError,
>)
    requires
        old(pool).solvent(),
    ensures
        *final(pool) == withdraw_premium_spec(*old(pool), amount),
        result is Ok <==> can_withdraw(*old(pool), amount),
        result is Ok ==> result == Ok::<(), InsuranceError>(()),
        result matches Err(e) ==> e == InsuranceError::InsufficientFunds,
        final(pool).solvent(),
{
    let surplus: u64 = pool.total_premium_collected - pool.total_claims_paid;
    if surplus >= amount {
        pool.total_premium_collected = pool.total_premium_collected - amount;
        Ok(())
    } else {
        Err(InsuranceError::InsufficientFunds)
    }
}

/// Records a premium paid in tokens. The token transfer of `amount` from the
/// payer's token balance to the pool's token balance is the external token
/// collaborator's work; this core only books the amount, and it books it on
/// the same counter as every other premium.
pub fn pay_premium_with_token(pool: &mut InsurancePool, amount: u64) -> (result: Result<
    (),
    InsuranceError,
>)
    ensures
        *final(pool) == collect_premium_spec(*old(pool), amount),
        result is Ok <==> can_collect(*old(pool), amount),
        result is Ok ==> result == Ok::<(), InsuranceError>(()),
        result matches Err(e) ==> e == InsuranceError::Overflow,
        old(pool).solvent() ==> final(pool).solvent(),
{
    collect_premium(pool, amount)
}

/// Records a liquidity stake into the pool. The pool keeps no separate
/// stake accounting: a stake increases `total_premium_collected` like a
/// premium payment does. The token transfer of `amount` into the pool's
/// balance is the external token collaborator's work.
pub fn stake_into_pool(pool: &mut InsurancePool, amount: u64) -> (result: Result<
    (),
    InsuranceError,
>)
    ensures
        *final(pool) == collect_premium_spec(*old(pool), amount),
        result is Ok <==> can_collect(*old(pool), amount),
        result is Ok ==> result == Ok::<(), InsuranceError>(()),
        result matches Err(e) ==> e == InsuranceError::Overflow,
        old(pool).solvent() ==> final(pool).solvent(),
{
    collect_premium(pool, amount)
}

} // verus!
