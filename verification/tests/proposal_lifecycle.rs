use dao_core::config::DaoConfig;
use dao_core::errors::DaoError;
use dao_core::proposal::{Proposal, ProposalStatus, ProposalType, VoteCounts, VoteType};

fn config_with_period(prevoting_period: u64) -> DaoConfig {
    DaoConfig {
        seed: 0,
        issue_price: 0,
        issue_amount: 0,
        proposal_fee: 0,
        max_supply: 0,
        min_quorum: 0,
        min_threshold: 0,
        max_expiry: 100_000,
        min_stake: 1,
        prevoting_period,
        proposal_count: 0,
    }
}

fn blank_proposal() -> Proposal {
    Proposal {
        id: 0,
        name: vec![],
        gist: vec![],
        proposal_kind: ProposalType::InformationalVote,
        vote_type: VoteType::SingleChoice,
        status: ProposalStatus::PreVoting,
        quorum: 0,
        threshold: 0,
        total_votes: 0,
        expiry: 1,
        created_time: 0,
        vote_counts: VoteCounts { for_votes: 0, against_votes: 0, abstain_votes: 0 },
    }
}

fn open_proposal(quorum: u8, threshold: u64, counts: [u64; 3], expiry: u64) -> Proposal {
    Proposal {
        id: 1,
        name: vec![],
        gist: vec![],
        proposal_kind: ProposalType::InformationalVote,
        vote_type: VoteType::SingleChoice,
        status: ProposalStatus::Open,
        quorum,
        threshold,
        total_votes: counts[0] + counts[1] + counts[2],
        expiry,
        created_time: 1,
        vote_counts: VoteCounts {
            for_votes: counts[0],
            against_votes: counts[1],
            abstain_votes: counts[2],
        },
    }
}

#[test]
fn init_fills_every_field() {
    let mut p = blank_proposal();
    let r = p.init(
        9,
        b"rename the treasury".to_vec(),
        b"gist/abc".to_vec(),
        ProposalType::Executable,
        VoteType::SingleChoice,
        40,
        100,
        500,
        1_000,
    );
    assert_eq!(r, Ok(()));
    assert_eq!(p.id, 9);
    assert_eq!(p.name, b"rename the treasury".to_vec());
    assert_eq!(p.gist, b"gist/abc".to_vec());
    assert_eq!(p.proposal_kind, ProposalType::Executable);
    assert_eq!(p.vote_type, VoteType::SingleChoice);
    assert_eq!(p.status, ProposalStatus::PreVoting);
    assert_eq!(p.quorum, 40);
    assert_eq!(p.threshold, 100);
    assert_eq!(p.total_votes, 0);
    assert_eq!(p.expiry, 1_500);
    assert_eq!(p.created_time, 1_000);
    assert_eq!(p.vote_counts.for_votes, 0);
    assert_eq!(p.vote_counts.against_votes, 0);
    assert_eq!(p.vote_counts.abstain_votes, 0);
}

#[test]
fn init_forces_single_choice() {
    let mut p = blank_proposal();
    let r = p.init(
        1,
        vec![],
        vec![],
        ProposalType::InformationalVote,
        VoteType::MultipleChoice,
        0,
        0,
        10,
        0,
    );
    assert_eq!(r, Ok(()));
    assert_eq!(p.vote_type, VoteType::SingleChoice);
    assert_eq!(p.is_single_choice(), Ok(()));
    assert_eq!(p.is_multi_choice(), Err(DaoError::InvalidVoteType));
}

#[test]
fn init_rejects_long_name() {
    let mut p = blank_proposal();
    let before = p.clone();
    let r = p.init(
        1,
        vec![b'x'; 33],
        vec![],
        ProposalType::InformationalVote,
        VoteType::SingleChoice,
        0,
        0,
        10,
        0,
    );
    assert_eq!(r, Err(DaoError::InvalidName));
    assert_eq!(p.status, before.status);
    assert_eq!(p.expiry, before.expiry);
    let ok = p.init(
        1,
        vec![b'x'; 32],
        vec![],
        ProposalType::InformationalVote,
        VoteType::SingleChoice,
        0,
        0,
        10,
        0,
    );
    assert_eq!(ok, Ok(()));
}

#[test]
fn init_rejects_long_gist() {
    let mut p = blank_proposal();
    let r = p.init(
        1,
        vec![],
        vec![b'g'; 73],
        ProposalType::InformationalVote,
        VoteType::SingleChoice,
        0,
        0,
        10,
        0,
    );
    assert_eq!(r, Err(DaoError::InvalidGist));
    let ok = p.init(
        1,
        vec![],
        vec![b'g'; 72],
        ProposalType::InformationalVote,
        VoteType::SingleChoice,
        0,
        0,
        10,
        0,
    );
    assert_eq!(ok, Ok(()));
}

#[test]
fn init_rejects_deadline_past_the_clock_range() {
    let mut p = blank_proposal();
    let r = p.init(
        1,
        vec![],
        vec![],
        ProposalType::InformationalVote,
        VoteType::SingleChoice,
        0,
        0,
        2,
        u64::MAX - 1,
    );
    assert_eq!(r, Err(DaoError::Overflow));
    assert_eq!(p.total_votes, 0);
    assert_eq!(p.expiry, 1);
}

#[test]
fn try_initialize_boundary() {
    let cfg = config_with_period(25);
    let mut p = blank_proposal();
    p.created_time = 100;
    p.expiry = 10_000;

    // one tick before the mandatory delay has passed
    let r = p.try_initialize(&cfg, 124);
    assert_eq!(r, Err(DaoError::InvalidRequiredTime));
    assert_eq!(p.status, ProposalStatus::PreVoting);

    // exactly at created_time + prevoting_period
    let r = p.try_initialize(&cfg, 125);
    assert_eq!(r, Ok(()));
    assert_eq!(p.status, ProposalStatus::Open);

    // not idempotent as a bare call: the guard now refuses
    let r = p.try_initialize(&cfg, 126);
    assert_eq!(r, Err(DaoError::InvalidProposalStatus));
    assert_eq!(p.status, ProposalStatus::Open);
}

#[test]
fn quorum_target_scenario_succeeds() {
    // total 100, counts [40, 10, 50], quorum 40%:
    // target = (100 - 50) * 40 / 100 = 20; for-votes 40 >= 20,
    // total 100 >= threshold 100, not expired => Succeeded.
    let mut p = open_proposal(40, 100, [40, 10, 50], 1_000);
    p.try_finalize(500);
    assert_eq!(p.status, ProposalStatus::Succeeded);
    assert_eq!(p.total_votes, 100);
    assert_eq!(p.vote_counts.for_votes, 40);
    assert_eq!(p.vote_counts.against_votes, 10);
    assert_eq!(p.vote_counts.abstain_votes, 50);
}

#[test]
fn threshold_gates_while_quorum_is_met() {
    // for-votes pass the quorum target but the participation floor is
    // missed and the deadline has not passed: stays open.
    let mut p = open_proposal(40, 1_000, [40, 10, 50], 1_000);
    p.try_finalize(500);
    assert_eq!(p.status, ProposalStatus::Open);
}

#[test]
fn quorum_gates_while_threshold_is_met() {
    // the participation floor is met but for-votes miss the quorum target
    // and against-votes miss it too: stays open.
    let mut p = open_proposal(90, 100, [40, 10, 50], 1_000);
    // target = (100 - 50) * 90 / 100 = 45; for 40 < 45, against 10 < 45
    p.try_finalize(500);
    assert_eq!(p.status, ProposalStatus::Open);
}

#[test]
fn against_votes_at_quorum_target_fail_the_proposal() {
    // target = (100 - 50) * 40 / 100 = 20; against 25 >= 20 => Failed,
    // even before the deadline.
    let mut p = open_proposal(40, 1_000, [25, 25, 50], 1_000);
    p.try_finalize(500);
    assert_eq!(p.status, ProposalStatus::Failed);
}

#[test]
fn success_wins_when_both_exits_hold() {
    // for and against both reach the target; the success branch is
    // evaluated first.
    let mut p = open_proposal(40, 100, [25, 25, 50], 1_000);
    p.try_finalize(500);
    assert_eq!(p.status, ProposalStatus::Succeeded);
}

#[test]
fn missed_threshold_fails_only_once_expired() {
    let mut p = open_proposal(40, 1_000, [40, 10, 50], 1_000);
    p.try_finalize(999);
    assert_eq!(p.status, ProposalStatus::Open);
    p.try_finalize(1_000);
    assert_eq!(p.status, ProposalStatus::Failed);
}

#[test]
fn expired_proposal_cannot_succeed() {
    // every success condition but the deadline holds, and neither failure
    // condition does: the proposal can no longer succeed, but it does not
    // fail either — it stays open
    let mut p = open_proposal(40, 100, [40, 10, 50], 1_000);
    p.try_finalize(1_000);
    assert_eq!(p.status, ProposalStatus::Open);
}

#[test]
fn zero_quorum_makes_the_target_trivial() {
    // target = (total - abstain) * 0 / 100 = 0: quorum trivially satisfied
    let mut p = open_proposal(0, 1, [0, 0, 1], 1_000);
    p.try_finalize(500);
    assert_eq!(p.status, ProposalStatus::Succeeded);
}

#[test]
fn try_finalize_leaves_prevoting_and_terminal_states_alone() {
    let mut p = open_proposal(0, 0, [5, 0, 0], 1_000);
    p.status = ProposalStatus::PreVoting;
    p.try_finalize(500);
    assert_eq!(p.status, ProposalStatus::PreVoting);

    p.status = ProposalStatus::Failed;
    p.try_finalize(500);
    assert_eq!(p.status, ProposalStatus::Failed);
}

#[test]
fn finalize_if_expired_closes_a_stale_proposal() {
    let mut p = open_proposal(40, 1_000, [40, 10, 50], 1_000);
    // before the deadline it changes nothing
    p.finalize_if_expired(999);
    assert_eq!(p.status, ProposalStatus::Open);
    // at the deadline the missed threshold fails the proposal
    p.finalize_if_expired(1_000);
    assert_eq!(p.status, ProposalStatus::Failed);
    // idempotent afterward
    p.finalize_if_expired(2_000);
    assert_eq!(p.status, ProposalStatus::Failed);
}

#[test]
fn check_expiry_is_a_pure_liveness_predicate() {
    let p = open_proposal(40, 100, [0, 0, 0], 1_000);
    assert_eq!(p.check_expiry(999), Ok(()));
    assert_eq!(p.check_expiry(1_000), Err(DaoError::Expired));
    assert_eq!(p.check_expiry(2_000), Err(DaoError::Expired));
    assert_eq!(p.status, ProposalStatus::Open);
}

#[test]
fn status_guards_name_the_one_live_state() {
    let mut p = blank_proposal();
    assert_eq!(p.is_votable(), Ok(()));
    assert_eq!(p.is_open(), Err(DaoError::InvalidProposalStatus));
    assert_eq!(p.is_succeeded(), Err(DaoError::InvalidProposalStatus));
    assert_eq!(p.is_failed(), Err(DaoError::InvalidProposalStatus));

    p.status = ProposalStatus::Open;
    assert_eq!(p.is_votable(), Err(DaoError::InvalidProposalStatus));
    assert_eq!(p.is_open(), Ok(()));

    p.status = ProposalStatus::Succeeded;
    assert_eq!(p.is_succeeded(), Ok(()));
    assert_eq!(p.is_failed(), Err(DaoError::InvalidProposalStatus));

    p.status = ProposalStatus::Failed;
    assert_eq!(p.is_failed(), Ok(()));
    assert_eq!(p.is_open(), Err(DaoError::InvalidProposalStatus));
}
