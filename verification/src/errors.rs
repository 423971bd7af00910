use vstd::prelude::*;

verus! {

/// Every way an operation of this crate can fail. An operation that returns
/// one of these leaves all the records it was handed unchanged.
#[derive(Clone, Copy, Debug, PartialEq, Eq, Structural)]
pub enum InsuranceError {
    /// The operation requires an active policy, but the policy is terminated.
    PolicyNotActive,
    /// The operation requires the current time to lie before the policy's
    /// `end_time`.
    PolicyExpired,
    /// A solvency or balance invariant of the pool would be violated.
    InsufficientFunds,
    /// An arithmetic accumulation would exceed the representable range.
    Overflow,
}

} // verus!
