use crate::account::AccountId;
use crate::errors::DaoError;
use vstd::prelude::*;

verus! {

/// The ballot choices of a single-choice vote: the three tally buckets a
/// vote's weight can land in. Abstentions count toward `total_votes` (the
/// participation floor) but not toward the quorum computation.
#[derive(Clone, Copy, Debug, PartialEq, Eq, Structural)]
pub enum VoteChoice {
    For,
    Against,
    Abstain,
}

/// Per-voter, per-proposal record of how much weight the voter committed
/// and to which choice. The hosting platform keeps at most one live record
/// per (voter, proposal) pair and reads it back to make retraction and
/// revoting exact: the record's `amount`/`choice` must always mirror the
/// contribution currently reflected in the owning proposal's tallies.
#[verifier::ext_equal]
#[derive(Clone, Copy, Debug, PartialEq, Eq, Structural)]
pub struct VoteState {
    pub owner: AccountId,
    pub amount: u64,
    pub choice: VoteChoice,
}

impl VoteState {
    /// Records the voter's committed weight and choice. The caller must
    /// first have applied the same `(amount, choice)` to the owning
    /// proposal via `Proposal::add_vote`, so the two stay synchronized.
    /// Cannot fail.
    pub fn init(&mut self, owner: AccountId, amount: u64, choice: VoteChoice) -> (r: Result<
        (),
        DaoError,
    >)
        ensures
            r is Ok,
            *final(self) == (VoteState { owner, amount, choice }),
    {
        self.owner = owner;
        self.amount = amount;
        self.choice = choice;
        Ok(())
    }
}

} // verus!
