//! On-ledger insurance accounting engine.
//!
//! The crate issues time-bounded coverage policies against a shared liquidity
//! pool, collects premiums, computes pro-rated refunds, approves claims
//! against pooled funds, and tallies governance votes. Every operation is the
//! pure accounting core of one ledger instruction: it validates its inputs,
//! mutates the records it names, and reports exactly when it fails. The
//! ledger substrate around it (account storage, signature checks, the clock,
//! and fund transfers) is an external collaborator; callers hand the current
//! time in as a plain value and perform the transfers that `cancel_policy`
//! and `withdraw_premium` request.

pub mod errors;
pub mod governance;
pub mod history;
pub mod identity;
pub mod laws;
pub mod policy;
pub mod pool;

pub use errors::InsuranceError;
pub use governance::Governance;
pub use governance::VoteRecord;
pub use governance::submit_governance_vote;
pub use history::PolicyAction;
pub use history::PolicyHistory;
pub use history::log_policy_action;
pub use identity::Identity;
pub use policy::InsurancePolicy;
pub use policy::adjust_coverage;
pub use policy::approve_claim;
pub use policy::cancel_policy;
pub use policy::process_policy_expiration;
pub use policy::purchase_insurance;
pub use pool::InsurancePool;
pub use pool::collect_premium;
pub use pool::initialize_pool;
pub use pool::pay_premium_with_token;
pub use pool::stake_into_pool;
pub use pool::withdraw_premium;
