use vstd::prelude::*;

verus! {

/// A failure described by a message.
#[derive(Debug)]
pub struct CustomError(pub String);

impl CustomError {
    pub fn message(&self) -> (r: String)
        ensures
            r@ == self.0@,
    {
        self.0.clone()
    }
}

/// The typed failures of the library's operations.
#[derive(Debug, Clone, Copy, PartialEq, Eq, Structural)]
pub enum BridgeError {
    /// An amount of zero where a positive one is needed.
    InvalidAmount,
    /// A transaction id that was already processed.
    DuplicateTransaction,
    /// A Merkle proof that does not lead to the tree's root.
    InvalidMerkleProof,
    /// More than the address holds.
    InsufficientBalance,
    /// A counter that would pass the largest `u64`.
    Overflow,
    /// A stake below the minimum.
    InsufficientStake,
    ValidatorAlreadyRegistered,
    ValidatorNotFound,
    ProposalNotFound,
    ProposalAlreadyApproved,
    ProposalNotApproved,
    ProposalAlreadyExecuted,
    ProposalDidNotPass,
    UnknownParameter,
    DuplicateFinalization,
    /// A transaction id that was never accepted.
    UnknownTransaction,
    /// A penalty larger than the stake it is taken from.
    PenaltyExceedsStake,
    RateLimitExceeded,
}

} // verus!
