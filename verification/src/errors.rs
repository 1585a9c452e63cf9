use vstd::prelude::*;

verus! {

/// Typed failures of the governance core. Every error aborts the enclosing
/// operation with no partial state committed.
///
/// - Validation errors (`InvalidName` through `InvalidVoteType`): the caller
///   supplied an out-of-range or inconsistent parameter.
/// - State-machine guard errors (`InvalidProposalStatus`,
///   `InvalidRequiredTime`, `Expired`): the operation is not valid in the
///   current lifecycle state or time window.
/// - Arithmetic errors (`Overflow`, `Underflow`): a tally or counter update
///   would wrap around; the mutation is refused as a whole.
#[derive(Clone, Copy, Debug, PartialEq, Eq, Structural)]
pub enum DaoError {
    InvalidName,
    InvalidGist,
    InvalidStakeAmount,
    InvalidQuorum,
    InvalidThreshold,
    InvalidExpiry,
    InvalidProposalSeed,
    InvalidVoteType,
    InvalidProposalStatus,
    InvalidRequiredTime,
    Expired,
    Overflow,
    Underflow,
}

} // verus!
