use crate::account::AccountId;
use crate::config::DaoConfig;
use crate::errors::DaoError;
use crate::vote::VoteChoice;
use vstd::prelude::*;

verus! {

/// How a proposal is voted on. `init` currently forces `SingleChoice`;
/// `MultipleChoice` is reserved until multi-choice tallying is supported.
#[derive(Clone, Copy, Debug, PartialEq, Eq, Structural)]
pub enum VoteType {
    SingleChoice,
    MultipleChoice,
}

/// What a passed proposal means downstream. Only the tally logic lives in
/// this core; a `Bounty` payload (pay `recipient` the given `amount`) or an
/// `Executable` payload is interpreted by an executor outside the core.
#[derive(Clone, Copy, Debug, PartialEq, Eq, Structural)]
pub enum ProposalType {
    Bounty { recipient: AccountId, amount: u64 },
    Executable,
    InformationalVote,
}

/// The proposal lifecycle. `status` only ever moves forward through
/// `PreVoting -> Open -> {Succeeded | Failed}`: never backward, never
/// skipping `Open`, and a terminal state is never left.
#[derive(Clone, Copy, Debug, PartialEq, Eq, Structural)]
pub enum ProposalStatus {
    PreVoting,
    Open,
    Succeeded,
    Failed,
}

/// The three tally buckets, one per [`VoteChoice`], each holding the total
/// weight currently committed to that choice.
#[verifier::ext_equal]
#[derive(Clone, Copy, Debug, PartialEq, Eq, Structural)]
pub struct VoteCounts {
    pub for_votes: u64,
    pub against_votes: u64,
    pub abstain_votes: u64,
}

impl VoteCounts {
    /// The bucket selected by `choice`.
    pub open spec fn count(self, choice: VoteChoice) -> u64 {
        match choice {
            VoteChoice::For => self.for_votes,
            VoteChoice::Against => self.against_votes,
            VoteChoice::Abstain => self.abstain_votes,
        }
    }

    /// The bucket selected by `choice` replaced by `value`.
    pub open spec fn with_count(self, choice: VoteChoice, value: u64) -> VoteCounts {
        match choice {
            VoteChoice::For => VoteCounts { for_votes: value, ..self },
            VoteChoice::Against => VoteCounts { against_votes: value, ..self },
            VoteChoice::Abstain => VoteCounts { abstain_votes: value, ..self },
        }
    }

    /// Total weight over all three buckets.
    pub open spec fn sum(self) -> int {
        self.for_votes + self.against_votes + self.abstain_votes
    }
}

/// One governance proposal: the state machine the rest of the core drives.
///
/// `name` and `gist` are byte strings bounded at creation (32 and 72 bytes);
/// `quorum` is a percentage of the non-abstaining weight, `threshold` an
/// absolute participation floor, and `expiry` the absolute deadline
/// `created_time + requested_duration` fixed at creation. All times are the
/// hosting platform's abstract clock units.
#[verifier::ext_equal]
#[derive(Clone, Debug)]
pub struct Proposal {
    pub id: u64,
    pub name: Vec<u8>,
    pub gist: Vec<u8>,
    pub proposal_kind: ProposalType,
    pub vote_type: VoteType,
    pub status: ProposalStatus,
    pub quorum: u8,
    pub threshold: u64,
    pub total_votes: u64,
    pub expiry: u64,
    pub created_time: u64,
    pub vote_counts: VoteCounts,
}

impl Proposal {
    /// The additive tally invariant: the running total equals the sum of
    /// the three buckets. Established at creation and preserved by every
    /// tally mutation.
    pub open spec fn tally_consistent(self) -> bool {
        self.total_votes == self.vote_counts.sum()
    }

    /// Well-formedness: the tally invariant plus the bounds fixed at
    /// creation (name and gist lengths, quorum a percentage, deadline
    /// strictly after creation).
    pub open spec fn wf(self) -> bool {
        &&& self.tally_consistent()
        &&& self.quorum <= 100
        &&& self.name@.len() <= 32
        &&& self.gist@.len() <= 72
        &&& self.created_time < self.expiry
    }

    /// A terminal proposal accepts no further mutation.
    pub open spec fn is_terminal(self) -> bool {
        self.status is Succeeded || self.status is Failed
    }

    /// Position of the status along the one-way lifecycle; every operation
    /// leaves it the same or larger.
    pub open spec fn status_rank(self) -> int {
        match self.status {
            ProposalStatus::PreVoting => 0,
            ProposalStatus::Open => 1,
            ProposalStatus::Succeeded => 2,
            ProposalStatus::Failed => 2,
        }
    }

    /// The same proposal with only its status replaced.
    pub open spec fn with_status(self, status: ProposalStatus) -> Proposal {
        Proposal { status, ..self }
    }

    /// Whether the lazy `PreVoting -> Open` transition fires at `now`: the
    /// proposal is still in pre-voting and the mandatory delay has passed.
    pub open spec fn can_open(self, prevoting_period: u64, now: u64) -> bool {
        self.status is PreVoting && now >= self.created_time + prevoting_period
    }

    /// The state after attempting the lazy `PreVoting -> Open` transition;
    /// unchanged when the transition does not fire.
    pub open spec fn after_open_attempt(self, prevoting_period: u64, now: u64) -> Proposal {
        if self.can_open(prevoting_period, now) {
            self.with_status(ProposalStatus::Open)
        } else {
            self
        }
    }

    /// Weight that counts toward quorum: everything cast except abstentions.
    pub open spec fn eligible_votes(self) -> int {
        self.total_votes - self.vote_counts.abstain_votes
    }

    /// Minimum weight a side needs for a quorum-backed outcome:
    /// `(total_votes - abstain_votes) * quorum / 100`, truncating toward
    /// zero. A quorum of zero makes the target zero, so quorum is then
    /// trivially satisfied: intentional floor behavior.
    pub open spec fn quorum_target(self) -> int {
        self.eligible_votes() * self.quorum / 100
    }

    /// Exit condition toward `Succeeded`: the participation floor is met,
    /// the `For` side reaches the quorum target, and the deadline has not
    /// passed.
    pub open spec fn meets_success(self, now: u64) -> bool {
        &&& self.total_votes >= self.threshold
        &&& self.vote_counts.for_votes >= self.quorum_target()
        &&& now < self.expiry
    }

    /// Exit condition toward `Failed`: the participation floor was missed
    /// and the deadline has passed, or the `Against` side reaches the
    /// quorum target.
    pub open spec fn meets_failure(self, now: u64) -> bool {
        ||| self.total_votes < self.threshold && now >= self.expiry
        ||| self.vote_counts.against_votes >= self.quorum_target()
    }

    /// The status `try_finalize` leaves at `now`: an `Open` proposal moves
    /// to `Succeeded` first, else to `Failed`, else stays `Open`; any other
    /// status is left alone.
    pub open spec fn finalize_status(self, now: u64) -> ProposalStatus {
        if !(self.status is Open) {
            self.status
        } else if self.meets_success(now) {
            ProposalStatus::Succeeded
        } else if self.meets_failure(now) {
            ProposalStatus::Failed
        } else {
            ProposalStatus::Open
        }
    }

    /// The state after `try_finalize` at `now`.
    pub open spec fn finalized(self, now: u64) -> Proposal {
        self.with_status(self.finalize_status(now))
    }

    /// The state after `finalize_if_expired` at `now`: finalization is run
    /// only on an `Open` proposal whose deadline has passed.
    pub open spec fn expiry_finalized(self, now: u64) -> Proposal {
        if self.status is Open && now >= self.expiry {
            self.finalized(now)
        } else {
            self
        }
    }

    /// Whether `amount` more weight still fits in the running total.
    pub open spec fn vote_fits(self, amount: u64) -> bool {
        self.total_votes + amount <= u64::MAX
    }

    /// The tallies with `amount` added to the running total and to the
    /// bucket of `choice`. Meaningful when the addition fits.
    pub open spec fn with_vote_added(self, amount: u64, choice: VoteChoice) -> Proposal {
        Proposal {
            total_votes: (self.total_votes + amount) as u64,
            vote_counts: self.vote_counts.with_count(
                choice,
                (self.vote_counts.count(choice) + amount) as u64,
            ),
            ..self
        }
    }

    /// The tallies with `amount` removed from the running total and from
    /// the bucket of `choice`. Meaningful when both subtractions stay
    /// non-negative.
    pub open spec fn with_vote_removed(self, amount: u64, choice: VoteChoice) -> Proposal {
        Proposal {
            total_votes: (self.total_votes - amount) as u64,
            vote_counts: self.vote_counts.with_count(
                choice,
                (self.vote_counts.count(choice) - amount) as u64,
            ),
            ..self
        }
    }

    /// The exact result `try_initialize` returns.
    pub open spec fn try_initialize_spec_r(self, prevoting_period: u64, now: u64) -> Result<
        (),
        DaoError,
    > {
        if !(self.status is PreVoting) {
            Err(DaoError::InvalidProposalStatus)
        } else if now < self.created_time + prevoting_period {
            Err(DaoError::InvalidRequiredTime)
        } else {
            Ok(())
        }
    }

    /// The exact result `add_vote` returns.
    pub open spec fn add_vote_spec_r(
        self,
        amount: u64,
        choice: VoteChoice,
        prevoting_period: u64,
        now: u64,
    ) -> Result<(), DaoError> {
        let opened = self.after_open_attempt(prevoting_period, now);
        if !(opened.status is Open) {
            Err(DaoError::InvalidProposalStatus)
        } else if !opened.vote_fits(amount) {
            Err(DaoError::Overflow)
        } else {
            Ok(())
        }
    }

    /// The state `add_vote` leaves: on success, the lazily opened proposal
    /// with the vote applied and finalization re-evaluated; on any error,
    /// the proposal exactly as it was.
    pub open spec fn add_vote_result(
        self,
        amount: u64,
        choice: VoteChoice,
        prevoting_period: u64,
        now: u64,
    ) -> Proposal {
        if self.add_vote_spec_r(amount, choice, prevoting_period, now) is Ok {
            self.after_open_attempt(prevoting_period, now).with_vote_added(
                amount,
                choice,
            ).finalized(now)
        } else {
            self
        }
    }

    /// The exact result `remove_vote` returns.
    pub open spec fn remove_vote_spec_r(self, amount: u64, choice: VoteChoice) -> Result<
        (),
        DaoError,
    > {
        if !(self.status is Open) {
            Err(DaoError::InvalidProposalStatus)
        } else if self.total_votes < amount {
            Err(DaoError::Underflow)
        } else if self.vote_counts.count(choice) < amount {
            Err(DaoError::Underflow)
        } else {
            Ok(())
        }
    }

    /// The state `remove_vote` leaves: the retraction applied on success,
    /// the proposal exactly as it was on any error.
    pub open spec fn remove_vote_result(self, amount: u64, choice: VoteChoice) -> Proposal {
        if self.remove_vote_spec_r(amount, choice) is Ok {
            self.with_vote_removed(amount, choice)
        } else {
            self
        }
    }

    /// Creates the proposal in `PreVoting` with zeroed tallies. `name` is
    /// capped at 32 bytes and `gist` at 72; the absolute deadline is
    /// `now + expiry_duration`, refused with `Overflow` when it does not
    /// fit. The vote type is forced to `SingleChoice` pending multi-choice
    /// support. On any error the proposal is unchanged.
    #[allow(unused_variables)]
    pub fn init(
        &mut self,
        id: u64,
        name: Vec<u8>,
        gist: Vec<u8>,
        proposal_kind: ProposalType,
        vote_type: VoteType,
        quorum: u8,
        threshold: u64,
        expiry_duration: u64,
        now: u64,
    ) -> (r: Result<(), DaoError>)
        requires
            quorum <= 100,
            expiry_duration >= 1,
        ensures
            r is Ok <==> (name@.len() <= 32 && gist@.len() <= 72 && now + expiry_duration
                <= u64::MAX),
            name@.len() > 32 ==> r == Err::<(), DaoError>(DaoError::InvalidName),
            name@.len() <= 32 && gist@.len() > 72 ==> r == Err::<(), DaoError>(
                DaoError::InvalidGist,
            ),
            name@.len() <= 32 && gist@.len() <= 72 && now + expiry_duration > u64::MAX ==> r
                == Err::<(), DaoError>(DaoError::Overflow),
            r is Err ==> *final(self) == *old(self),
            r is Ok ==> *final(self) == (Proposal {
                id,
                name,
                gist,
                proposal_kind,
                vote_type: VoteType::SingleChoice,
                status: ProposalStatus::PreVoting,
                quorum,
                threshold,
                total_votes: 0,
                expiry: (now + expiry_duration) as u64,
                created_time: now,
                vote_counts: (VoteCounts { for_votes: 0, against_votes: 0, abstain_votes: 0 }),
            }),
            r is Ok ==> final(self).wf(),
    {
        if name.len() > 32 {
            return Err(DaoError::InvalidName);
        }
        if gist.len() > 72 {
            return Err(DaoError::InvalidGist);
        }
        let expiry = match now.checked_add(expiry_duration) {
            Some(expiry) => expiry,
            None => {
                return Err(DaoError::Overflow);
            },
        };
        self.id = id;
        self.name = name;
        self.gist = gist;
        self.proposal_kind = proposal_kind;
        self.vote_type = VoteType::SingleChoice;
        self.status = ProposalStatus::PreVoting;
        self.quorum = quorum;
        self.threshold = threshold;
        self.total_votes = 0;
        self.expiry = expiry;
        self.created_time = now;
        self.vote_counts = VoteCounts { for_votes: 0, against_votes: 0, abstain_votes: 0 };
        Ok(())
    }

    /// Guard: the proposal is a single-choice vote.
    pub fn is_single_choice(&self) -> (r: Result<(), DaoError>)
        ensures
            r is Ok <==> self.vote_type is SingleChoice,
            r is Err ==> r == Err::<(), DaoError>(DaoError::InvalidVoteType),
    {
        if self.vote_type == VoteType::SingleChoice {
            Ok(())
        } else {
            Err(DaoError::InvalidVoteType)
        }
    }

    /// Guard: the proposal is a multiple-choice vote.
    pub fn is_multi_choice(&self) -> (r: Result<(), DaoError>)
        ensures
            r is Ok <==> self.vote_type is MultipleChoice,
            r is Err ==> r == Err::<(), DaoError>(DaoError::InvalidVoteType),
    {
        if self.vote_type == VoteType::MultipleChoice {
            Ok(())
        } else {
            Err(DaoError::InvalidVoteType)
        }
    }

    /// Guard: the proposal is still in `PreVoting` and can take the opening
    /// transition.
    pub fn is_votable(&self) -> (r: Result<(), DaoError>)
        ensures
            r is Ok <==> self.status is PreVoting,
            r is Err ==> r == Err::<(), DaoError>(DaoError::InvalidProposalStatus),
    {
        if self.status == ProposalStatus::PreVoting {
            Ok(())
        } else {
            Err(DaoError::InvalidProposalStatus)
        }
    }

    /// Guard: the proposal is `Open` for vote mutation.
    pub fn is_open(&self) -> (r: Result<(), DaoError>)
        ensures
            r is Ok <==> self.status is Open,
            r is Err ==> r == Err::<(), DaoError>(DaoError::InvalidProposalStatus),
    {
        if self.status == ProposalStatus::Open {
            Ok(())
        } else {
            Err(DaoError::InvalidProposalStatus)
        }
    }

    /// Guard: the proposal reached `Succeeded`.
    pub fn is_succeeded(&self) -> (r: Result<(), DaoError>)
        ensures
            r is Ok <==> self.status is Succeeded,
            r is Err ==> r == Err::<(), DaoError>(DaoError::InvalidProposalStatus),
    {
        if self.status == ProposalStatus::Succeeded {
            Ok(())
        } else {
            Err(DaoError::InvalidProposalStatus)
        }
    }

    /// Guard: the proposal reached `Failed`.
    pub fn is_failed(&self) -> (r: Result<(), DaoError>)
        ensures
            r is Ok <==> self.status is Failed,
            r is Err ==> r == Err::<(), DaoError>(DaoError::InvalidProposalStatus),
    {
        if self.status == ProposalStatus::Failed {
            Ok(())
        } else {
            Err(DaoError::InvalidProposalStatus)
        }
    }

    /// Liveness predicate, not a mutator: fails with `Expired` once the
    /// deadline has been reached.
    pub fn check_expiry(&self, now: u64) -> (r: Result<(), DaoError>)
        ensures
            r is Ok <==> now < self.expiry,
            r is Err ==> r == Err::<(), DaoError>(DaoError::Expired),
    {
        if now < self.expiry {
            Ok(())
        } else {
            Err(DaoError::Expired)
        }
    }

    /// The `PreVoting -> Open` transition: refused while the proposal is
    /// not in `PreVoting`, and with `InvalidRequiredTime` while the
    /// mandatory pre-voting delay `config.prevoting_period` has not passed
    /// since creation. Succeeds exactly at
    /// `now == created_time + prevoting_period` and any time after. On any
    /// error the proposal is unchanged.
    pub fn try_initialize(&mut self, config: &DaoConfig, now: u64) -> (r: Result<(), DaoError>)
        ensures
            r == old(self).try_initialize_spec_r(config.prevoting_period, now),
            *final(self) == old(self).after_open_attempt(config.prevoting_period, now),
            r is Err ==> *final(self) == *old(self),
    {
        if self.status != ProposalStatus::PreVoting {
            return Err(DaoError::InvalidProposalStatus);
        }
        let reachable = match self.created_time.checked_add(config.prevoting_period) {
            Some(required_time) => now >= required_time,
            None => false,
        };
        if !reachable {
            return Err(DaoError::InvalidRequiredTime);
        }
        self.status = ProposalStatus::Open;
        Ok(())
    }

    /// Re-evaluates the exit conditions of an `Open` proposal at `now`,
    /// moving it to `Succeeded` or `Failed` exactly as `finalize_status`
    /// says; a proposal that meets neither exit condition stays `Open`, and
    /// a proposal not `Open` is left alone. Nothing but the status changes.
    pub fn try_finalize(&mut self, now: u64)
        requires
            old(self).tally_consistent(),
        ensures
            *final(self) == old(self).finalized(now),
    {
        if self.status == ProposalStatus::Open {
            let eligible = self.total_votes - self.vote_counts.abstain_votes;
            assert((eligible as int) * (self.quorum as int) <= (u64::MAX as int) * 255)
                by (nonlinear_arith)
                requires
                    eligible <= u64::MAX,
                    self.quorum <= 255,
            ;
            let target = (eligible as u128) * (self.quorum as u128) / 100;
            assert(target == self.quorum_target());
            let succeeded = self.total_votes >= self.threshold && (self.vote_counts.for_votes
                as u128) >= target && now < self.expiry;
            let failed = (self.total_votes < self.threshold && now >= self.expiry) || (
            self.vote_counts.against_votes as u128) >= target;
            if succeeded {
                self.status = ProposalStatus::Succeeded;
            } else if failed {
                self.status = ProposalStatus::Failed;
            }
        }
    }

    /// Idempotent closer for stale proposals, meant for external schedulers:
    /// runs finalization only on an `Open` proposal whose deadline has
    /// passed, and changes nothing otherwise. An `Open` proposal past its
    /// deadline otherwise stays `Open` in storage until the next vote or
    /// finalize call, since expiry is evaluated lazily.
    pub fn finalize_if_expired(&mut self, now: u64)
        requires
            old(self).tally_consistent(),
        ensures
            *final(self) == old(self).expiry_finalized(now),
    {
        if self.status == ProposalStatus::Open && now >= self.expiry {
            self.try_finalize(now);
        }
    }

    /// Casts `amount` weight on `choice`. First attempts the lazy
    /// `PreVoting -> Open` transition (already being `Open` is fine), then
    /// adds `amount` to the running total and the chosen bucket, then
    /// re-evaluates finalization, which may move the proposal to a terminal
    /// state as part of this one call. Fails with `InvalidProposalStatus`
    /// when the proposal is not and cannot become `Open`, and with
    /// `Overflow` when the total would wrap; on any error nothing at all is
    /// changed, the opening transition included.
    pub fn add_vote(
        &mut self,
        amount: u64,
        choice: VoteChoice,
        config: &DaoConfig,
        now: u64,
    ) -> (r: Result<(), DaoError>)
        requires
            old(self).tally_consistent(),
        ensures
            r == old(self).add_vote_spec_r(amount, choice, config.prevoting_period, now),
            *final(self) == old(self).add_vote_result(amount, choice, config.prevoting_period, now),
            final(self).tally_consistent(),
    {
        let ghost opened = old(self).after_open_attempt(config.prevoting_period, now);
        let can_open = self.status == ProposalStatus::PreVoting && (match self
            .created_time
            .checked_add(config.prevoting_period) {
            Some(required_time) => now >= required_time,
            None => false,
        });
        if !(self.status == ProposalStatus::Open || can_open) {
            return Err(DaoError::InvalidProposalStatus);
        }
        let new_total = match self.total_votes.checked_add(amount) {
            Some(new_total) => new_total,
            None => {
                return Err(DaoError::Overflow);
            },
        };
        if can_open {
            self.status = ProposalStatus::Open;
        }
        self.total_votes = new_total;
        match choice {
            VoteChoice::For => {
                self.vote_counts.for_votes = self.vote_counts.for_votes + amount;
            },
            VoteChoice::Against => {
                self.vote_counts.against_votes = self.vote_counts.against_votes + amount;
            },
            VoteChoice::Abstain => {
                self.vote_counts.abstain_votes = self.vote_counts.abstain_votes + amount;
            },
        }
        self.try_finalize(now);
        Ok(())
    }

    /// Retracts `amount` weight from `choice`, the exact reverse of
    /// `add_vote`'s tally update. Requires the proposal to be `Open`;
    /// fails with `Underflow` when either the running total or the chosen
    /// bucket would drop below zero, and on any error nothing is changed.
    /// Retraction deliberately does not re-run finalization: it can never
    /// make a proposal pass, only leave it open longer.
    pub fn remove_vote(&mut self, amount: u64, choice: VoteChoice) -> (r: Result<(), DaoError>)
        ensures
            r == old(self).remove_vote_spec_r(amount, choice),
            *final(self) == old(self).remove_vote_result(amount, choice),
    {
        if self.status != ProposalStatus::Open {
            return Err(DaoError::InvalidProposalStatus);
        }
        let new_total = match self.total_votes.checked_sub(amount) {
            Some(new_total) => new_total,
            None => {
                return Err(DaoError::Underflow);
            },
        };
        let bucket = match choice {
            VoteChoice::For => self.vote_counts.for_votes,
            VoteChoice::Against => self.vote_counts.against_votes,
            VoteChoice::Abstain => self.vote_counts.abstain_votes,
        };
        let new_bucket = match bucket.checked_sub(amount) {
            Some(new_bucket) => new_bucket,
            None => {
                return Err(DaoError::Underflow);
            },
        };
        self.total_votes = new_total;
        match choice {
            VoteChoice::For => {
                self.vote_counts.for_votes = new_bucket;
            },
            VoteChoice::Against => {
                self.vote_counts.against_votes = new_bucket;
            },
            VoteChoice::Abstain => {
                self.vote_counts.abstain_votes = new_bucket;
            },
        }
        Ok(())
    }
}

} // verus!
