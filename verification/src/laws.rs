use crate::errors::DaoError;
use crate::proposal::Proposal;
use crate::vote::VoteChoice;
use vstd::prelude::*;

verus! {

/// One mutation of a proposal, together with the clock reading the host
/// supplied for it. The five variants are exactly the mutating operations
/// of [`Proposal`]; an operation whose guards refuse it leaves the proposal
/// unchanged, as each operation's contract states.
pub enum ProposalOp {
    AddVote { amount: u64, choice: VoteChoice, now: u64 },
    RemoveVote { amount: u64, choice: VoteChoice },
    TryInitialize { now: u64 },
    TryFinalize { now: u64 },
    FinalizeIfExpired { now: u64 },
}

/// The state one operation leaves, matching the `ensures` of the
/// corresponding executable operation under `prevoting_period`.
pub open spec fn apply_op(p: Proposal, prevoting_period: u64, op: ProposalOp) -> Proposal {
    match op {
        ProposalOp::AddVote { amount, choice, now } => p.add_vote_result(
            amount,
            choice,
            prevoting_period,
            now,
        ),
        ProposalOp::RemoveVote { amount, choice } => p.remove_vote_result(amount, choice),
        ProposalOp::TryInitialize { now } => p.after_open_attempt(prevoting_period, now),
        ProposalOp::TryFinalize { now } => p.finalized(now),
        ProposalOp::FinalizeIfExpired { now } => p.expiry_finalized(now),
    }
}

/// The state a whole sequence of operations leaves, applied left to right.
pub open spec fn apply_ops(p: Proposal, prevoting_period: u64, ops: Seq<ProposalOp>) -> Proposal
    decreases ops.len(),
{
    if ops.len() == 0 {
        p
    } else {
        apply_ops(apply_op(p, prevoting_period, ops[0]), prevoting_period, ops.drop_first())
    }
}

proof fn lemma_op_keeps_tally(p: Proposal, prevoting_period: u64, op: ProposalOp)
    requires
        p.tally_consistent(),
    ensures
        apply_op(p, prevoting_period, op).tally_consistent(),
{
}

proof fn lemma_op_status_monotone(p: Proposal, prevoting_period: u64, op: ProposalOp)
    ensures
        apply_op(p, prevoting_period, op).status_rank() >= p.status_rank(),
        p.is_terminal() ==> apply_op(p, prevoting_period, op) == p,
{
    assert(p.with_status(p.status) == p);
}

/// Law: after every sequence of state-machine operations on one proposal —
/// votes, retractions, opening and finalization attempts — the additive
/// invariant `total_votes == vote_counts.sum()` still holds.
pub proof fn lemma_ops_preserve_tally(p: Proposal, prevoting_period: u64, ops: Seq<ProposalOp>)
    requires
        p.tally_consistent(),
    ensures
        apply_ops(p, prevoting_period, ops).tally_consistent(),
    decreases ops.len(),
{
    if ops.len() > 0 {
        lemma_op_keeps_tally(p, prevoting_period, ops[0]);
        lemma_ops_preserve_tally(
            apply_op(p, prevoting_period, ops[0]),
            prevoting_period,
            ops.drop_first(),
        );
    }
}

/// Law: the status never regresses. Over any sequence of operations the
/// lifecycle position only grows — once `Open`, a proposal never returns to
/// `PreVoting` — and a proposal already terminal is left exactly as it is
/// by every further operation.
pub proof fn lemma_ops_status_monotone(p: Proposal, prevoting_period: u64, ops: Seq<ProposalOp>)
    ensures
        apply_ops(p, prevoting_period, ops).status_rank() >= p.status_rank(),
        p.is_terminal() ==> apply_ops(p, prevoting_period, ops) == p,
    decreases ops.len(),
{
    if ops.len() > 0 {
        lemma_op_status_monotone(p, prevoting_period, ops[0]);
        lemma_ops_status_monotone(
            apply_op(p, prevoting_period, ops[0]),
            prevoting_period,
            ops.drop_first(),
        );
    }
}

/// Law: a vote mutation on a terminal proposal is refused with
/// `InvalidProposalStatus` and changes nothing.
pub proof fn lemma_terminal_mutation_refused(
    p: Proposal,
    amount: u64,
    choice: VoteChoice,
    prevoting_period: u64,
    now: u64,
)
    requires
        p.is_terminal(),
    ensures
        p.add_vote_spec_r(amount, choice, prevoting_period, now) == Err::<(), DaoError>(
            DaoError::InvalidProposalStatus,
        ),
        p.add_vote_result(amount, choice, prevoting_period, now) == p,
        p.remove_vote_spec_r(amount, choice) == Err::<(), DaoError>(
            DaoError::InvalidProposalStatus,
        ),
        p.remove_vote_result(amount, choice) == p,
{
}

/// Law: casting a vote and then fully retracting the same
/// `(amount, choice)` restores the proposal — `total_votes` and
/// `vote_counts` included — exactly, provided the vote leaves the proposal
/// `Open` (a vote that finalizes the proposal makes the retraction itself
/// refuse, so nothing is restored then).
pub proof fn lemma_vote_round_trip(
    p: Proposal,
    amount: u64,
    choice: VoteChoice,
    prevoting_period: u64,
    now: u64,
)
    requires
        p.tally_consistent(),
        p.status is Open,
        p.total_votes + amount <= u64::MAX,
        p.with_vote_added(amount, choice).finalize_status(now) is Open,
    ensures
        p.add_vote_result(amount, choice, prevoting_period, now).remove_vote_result(amount, choice)
            == p,
{
    let added = p.add_vote_result(amount, choice, prevoting_period, now);
    assert(added == p.with_vote_added(amount, choice));
    assert(added.remove_vote_result(amount, choice) == p);
}

} // verus!
