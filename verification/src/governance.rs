use vstd::prelude::*;

use crate::errors::InsuranceError;
use crate::identity::Identity;

verus! {

/// The protocol-wide governance tally: one record per protocol instance,
/// only ever incremented.
#[derive(Clone, Copy, Debug, PartialEq, Eq, Structural)]
pub struct Governance {
    pub yes_votes: u64,
    pub no_votes: u64,
    pub total_proposals: u64,
}

/// One submitted vote: who voted, on which proposal, which way, and when.
/// Immutable once created. Nothing stops the same voter from voting again
/// on the same proposal — every submission counts into the tally and leaves
/// its own record.
#[derive(Clone, Copy, Debug, PartialEq, Eq, Structural)]
pub struct VoteRecord {
    pub voter: Identity,
    pub proposal_id: u64,
    pub vote: bool,
    pub timestamp: i64,
}

/// Whether one more vote of this direction still fits the tally.
pub open spec fn can_tally(governance: Governance, vote: bool) -> bool {
    if vote {
        governance.yes_votes < u64::MAX
    } else {
        governance.no_votes < u64::MAX
    }
}

/// The tally after one more vote of this direction was counted.
pub open spec fn vote_counted(governance: Governance, vote: bool) -> Governance {
    if vote {
        Governance { yes_votes: (governance.yes_votes + 1) as u64, ..governance }
    } else {
        Governance { no_votes: (governance.no_votes + 1) as u64, ..governance }
    }
}

/// How one vote submission leaves the tally: one counter up by one, or, in
/// the far case that the counter would wrap, the tally as it was.
pub open spec fn submit_vote_spec(governance: Governance, vote: bool) -> Governance {
    if can_tally(governance, vote) {
        vote_counted(governance, vote)
    } else {
        governance
    }
}

/// Counts `vote` on `proposal_id` into the shared tally and returns the new
/// vote record, stamped with time `now`. Every submission makes a fresh
/// record; none is updated in place, and repeat votes by the same voter are
/// not rejected. Fails with `Overflow`, creating no record and leaving the
/// tally unchanged, exactly when the chosen counter would wrap.
pub fn submit_governance_vote(
    governance: &mut Governance,
    voter: Identity,
    proposal_id: u64,
    vote: bool,
    now: i64,
) -> (result: Result<VoteRecord, InsuranceError>)
    ensures
        *final(governance) == submit_vote_spec(*old(governance), vote),
        result is Ok <==> can_tally(*old(governance), vote),
        result matches Ok(record) ==> record == (VoteRecord {
            voter,
            proposal_id,
            vote,
            timestamp: now,
        }),
        result matches Err(e) ==> e == InsuranceError::Overflow,
        final(governance).total_proposals == old(governance).total_proposals,
{
    if vote {
        if governance.yes_votes < u64::MAX {
            governance.yes_votes = governance.yes_votes + 1;
            Ok(VoteRecord { voter, proposal_id, vote, timestamp: now })
        } else {
            Err(InsuranceError::Overflow)
        }
    } else {
        if governance.no_votes < u64::MAX {
            governance.no_votes = governance.no_votes + 1;
            Ok(VoteRecord { voter, proposal_id, vote, timestamp: now })
        } else {
            Err(InsuranceError::Overflow)
        }
    }
}

} // verus!
