use vstd::prelude::*;

use crate::identity::Identity;

verus! {

/// The action a history entry records against a policy.
#[derive(Clone, Copy, Debug, PartialEq, Eq, Structural)]
pub enum PolicyAction {
    Created,
    Canceled,
    Claimed,
    Expired,
}

/// One entry of the append-only policy history: who acted, which policy was
/// acted on, what happened, and when. Entries are only ever created, never
/// mutated or deleted.
#[derive(Clone, Copy, Debug, PartialEq, Eq, Structural)]
pub struct PolicyHistory {
    pub user: Identity,
    pub policy: Identity,
    pub action: PolicyAction,
    pub timestamp: i64,
}

/// Builds the history entry for `action` taken by `user` against `policy`
/// at time `now`. A pure append: the caller invokes it after the matching
/// state-changing operation succeeded; nothing chains the two automatically.
pub fn log_policy_action(
    user: Identity,
    policy: Identity,
    action: PolicyAction,
    now: i64,
) -> (entry: PolicyHistory)
    ensures
        entry == (PolicyHistory { user, policy, action, timestamp: now }),
{
    PolicyHistory { user, policy, action, timestamp: now }
}

} // verus!
