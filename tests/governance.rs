use solmosaic::communities::{
    create_community, initialize_governance, join_community, CreateCommunity, InitializeGovernance,
    JoinCommunity,
};
use solmosaic::factions::{create_faction, join_faction, CreateFaction, JoinFaction};
use solmosaic::ledger::Ledger;
use solmosaic::proposals::{
    cast_vote, create_proposal, execute_proposal, finalize_proposal, CastVote, CreateProposal,
    ExecuteProposal, FinalizeProposal,
};
use solmosaic::strategies::{
    allocations_total_100, create_investment_strategy, CreateInvestmentStrategy,
};
use solmosaic::types::{
    Address, GovernanceError, ProposalStatus, ReputationScore, RewardKind, Role, VoteType,
};

fn founder() -> Address {
    Address::new(1, 1)
}

fn member() -> Address {
    Address::new(2, 2)
}

fn outsider() -> Address {
    Address::new(3, 3)
}

/// Root with threshold 50 and a one-day window, a community founded by
/// `founder()`, and `member()` joined.
fn setup() -> Ledger {
    let mut l = Ledger::new();
    let g = initialize_governance(
        &mut l,
        InitializeGovernance { authority: founder() },
        "root".to_string(),
        50,
        86400,
    )
    .unwrap();
    assert_eq!(g, 0);
    let c = create_community(
        &mut l,
        CreateCommunity { governance: 0, authority: founder() },
        "collectors".to_string(),
        "a community".to_string(),
        0,
    )
    .unwrap();
    assert_eq!(c, 0);
    let m = join_community(&mut l, JoinCommunity { community: 0, user: member() }, 0).unwrap();
    assert_eq!(m, 1);
    l
}

fn propose(l: &mut Ledger, is_investment: bool) -> usize {
    create_proposal(
        l,
        CreateProposal { community: 0, authority: founder() },
        "buy".to_string(),
        "buy a collection".to_string(),
        is_investment,
        Some(Address::new(9, 9)),
        Some(1000),
        0,
    )
    .unwrap()
}

fn vote(l: &mut Ledger, who: Address, t: VoteType, now: i64) -> Result<(), GovernanceError> {
    cast_vote(l, CastVote { proposal: 0, authority: who }, t, now)
}

fn score_of(l: &Ledger, who: Address) -> &ReputationScore {
    l.reputations.iter().find(|r| r.governance == 0 && r.user == who).unwrap()
}

#[test]
fn initialize_governance_sets_fields() {
    let mut l = Ledger::new();
    let id = initialize_governance(
        &mut l,
        InitializeGovernance { authority: founder() },
        "root".to_string(),
        50,
        86400,
    );
    assert_eq!(id, Ok(0));
    let g = &l.governances[0];
    assert_eq!(g.authority, founder());
    assert_eq!(g.name, "root");
    assert_eq!(g.min_vote_threshold, 50);
    assert_eq!(g.voting_period, 86400);
    assert_eq!(g.proposal_count, 0);
    assert_eq!(g.total_communities, 0);
    assert!(g.is_active);
}

#[test]
fn second_governance_for_same_authority_fails() {
    let mut l = Ledger::new();
    let ctx = InitializeGovernance { authority: founder() };
    assert_eq!(initialize_governance(&mut l, ctx, "a".to_string(), 1, 1), Ok(0));
    assert_eq!(
        initialize_governance(&mut l, ctx, "b".to_string(), 1, 1),
        Err(GovernanceError::AlreadyExists)
    );
    assert_eq!(l.governances.len(), 1);
    let other = InitializeGovernance { authority: member() };
    assert_eq!(initialize_governance(&mut l, other, "b".to_string(), 1, 1), Ok(1));
}

#[test]
fn create_community_makes_founder_admin() {
    let l = setup();
    let c = &l.communities[0];
    assert_eq!(c.governance, 0);
    assert_eq!(c.name, "collectors");
    assert_eq!(c.authority, founder());
    assert_eq!(c.member_count, 2);
    assert_eq!(c.proposal_count, 0);
    assert!(c.is_active);
    let m = &l.memberships[0];
    assert_eq!(m.community, 0);
    assert_eq!(m.user, founder());
    assert_eq!(m.role, Role::Admin);
    assert_eq!(m.voting_power, 100);
    assert_eq!(m.reputation_score, 100);
    assert!(m.is_active);
    assert_eq!(l.governances[0].total_communities, 1);
}

#[test]
fn create_community_errors() {
    let mut l = setup();
    let ctx = CreateCommunity { governance: 0, authority: member() };
    assert_eq!(
        create_community(&mut l, ctx, "collectors".to_string(), String::new(), 5),
        Err(GovernanceError::AlreadyExists)
    );
    let missing = CreateCommunity { governance: 7, authority: member() };
    assert_eq!(
        create_community(&mut l, missing, "other".to_string(), String::new(), 5),
        Err(GovernanceError::NotFound)
    );
    l.governances[0].is_active = false;
    assert_eq!(
        create_community(&mut l, ctx, "other".to_string(), String::new(), 5),
        Err(GovernanceError::NotActive)
    );
    assert_eq!(l.communities.len(), 1);
    assert_eq!(l.governances[0].total_communities, 1);
}

#[test]
fn join_community_creates_member_and_score() {
    let l = setup();
    let m = &l.memberships[1];
    assert_eq!(m.community, 0);
    assert_eq!(m.user, member());
    assert_eq!(m.role, Role::Member);
    assert_eq!(m.voting_power, 10);
    assert_eq!(m.reputation_score, 10);
    let r = score_of(&l, member());
    assert_eq!(r.investment_score, 0);
    assert_eq!(r.participation_score, 10);
    assert_eq!(r.contribution_score, 0);
    assert_eq!(r.total_score, 10);
}

#[test]
fn join_community_twice_fails() {
    let mut l = setup();
    assert_eq!(
        join_community(&mut l, JoinCommunity { community: 0, user: member() }, 3),
        Err(GovernanceError::AlreadyExists)
    );
    assert_eq!(
        join_community(&mut l, JoinCommunity { community: 4, user: outsider() }, 3),
        Err(GovernanceError::NotFound)
    );
    l.communities[0].is_active = false;
    assert_eq!(
        join_community(&mut l, JoinCommunity { community: 0, user: outsider() }, 3),
        Err(GovernanceError::NotActive)
    );
    assert_eq!(l.communities[0].member_count, 2);
    assert_eq!(l.memberships.len(), 2);
}

#[test]
fn create_proposal_sets_window_and_rewards() {
    let mut l = setup();
    let id = create_proposal(
        &mut l,
        CreateProposal { community: 0, authority: founder() },
        "t".to_string(),
        "d".to_string(),
        true,
        Some(Address::new(9, 9)),
        Some(1000),
        1000,
    );
    assert_eq!(id, Ok(0));
    let p = &l.proposals[0];
    assert_eq!(p.status, ProposalStatus::Active);
    assert_eq!(p.start_time, 1000);
    assert_eq!(p.end_time, 87400);
    assert_eq!((p.for_votes, p.against_votes, p.abstain_votes), (0, 0, 0));
    assert_eq!(p.executed_at, None);
    assert_eq!(p.proposer, founder());
    assert!(p.is_investment_proposal);
    assert_eq!(p.target_collection, Some(Address::new(9, 9)));
    assert_eq!(p.investment_amount, Some(1000));
    assert_eq!(l.communities[0].proposal_count, 1);
    assert_eq!(l.governances[0].proposal_count, 1);
    let r = score_of(&l, founder());
    assert_eq!(r.participation_score, 25);
    assert_eq!(r.total_score, 25);
    let reward = l.rewards.last().unwrap();
    assert_eq!(reward.user, founder());
    assert_eq!(reward.reward_type, RewardKind::Proposal);
    assert_eq!(reward.amount, 50);
    assert_eq!(reward.timestamp, 1000);
    assert!(!reward.is_claimed);
}

#[test]
fn create_proposal_needs_membership() {
    let mut l = setup();
    let r = create_proposal(
        &mut l,
        CreateProposal { community: 0, authority: outsider() },
        "t".to_string(),
        "d".to_string(),
        false,
        None,
        None,
        0,
    );
    assert_eq!(r, Err(GovernanceError::NotCommunityMember));
    l.memberships[1].is_active = false;
    let r = create_proposal(
        &mut l,
        CreateProposal { community: 0, authority: member() },
        "t".to_string(),
        "d".to_string(),
        false,
        None,
        None,
        0,
    );
    assert_eq!(r, Err(GovernanceError::NotCommunityMember));
    assert!(l.proposals.is_empty());
    assert_eq!(l.communities[0].proposal_count, 0);
}

#[test]
fn create_proposal_end_time_overflow() {
    let mut l = setup();
    let r = create_proposal(
        &mut l,
        CreateProposal { community: 0, authority: founder() },
        "t".to_string(),
        "d".to_string(),
        false,
        None,
        None,
        i64::MAX - 10,
    );
    assert_eq!(r, Err(GovernanceError::MathOverflow));
    assert!(l.proposals.is_empty());
    assert!(l.rewards.is_empty());
}

#[test]
fn vote_adds_power_and_rewards() {
    let mut l = setup();
    propose(&mut l, false);
    assert_eq!(vote(&mut l, founder(), VoteType::For, 10), Ok(()));
    assert_eq!(vote(&mut l, member(), VoteType::Abstain, 20), Ok(()));
    let p = &l.proposals[0];
    assert_eq!((p.for_votes, p.against_votes, p.abstain_votes), (100, 0, 10));
    let v = &l.votes[1];
    assert_eq!(v.voter, member());
    assert_eq!(v.vote_type, VoteType::Abstain);
    assert_eq!(v.voting_power, 10);
    assert_eq!(v.vote_time, 20);
    assert_eq!(score_of(&l, member()).participation_score, 20);
    assert_eq!(score_of(&l, founder()).participation_score, 35);
    let reward = l.rewards.last().unwrap();
    assert_eq!(reward.user, member());
    assert_eq!(reward.reward_type, RewardKind::Vote);
    assert_eq!(reward.amount, 10);
    assert_eq!(l.rewards.len(), 3);
}

#[test]
fn tallies_equal_recorded_vote_power() {
    let mut l = setup();
    let third = outsider();
    join_community(&mut l, JoinCommunity { community: 0, user: third }, 0).unwrap();
    propose(&mut l, false);
    vote(&mut l, founder(), VoteType::Against, 1).unwrap();
    vote(&mut l, member(), VoteType::For, 2).unwrap();
    vote(&mut l, third, VoteType::Abstain, 3).unwrap();
    let p = &l.proposals[0];
    let recorded: u64 = l.votes.iter().filter(|v| v.proposal == 0).map(|v| v.voting_power).sum();
    assert_eq!(p.for_votes + p.against_votes + p.abstain_votes, recorded);
    assert_eq!(recorded, 120);
}

#[test]
fn second_vote_fails_and_keeps_tallies() {
    let mut l = setup();
    propose(&mut l, false);
    vote(&mut l, member(), VoteType::For, 5).unwrap();
    assert_eq!(vote(&mut l, member(), VoteType::Against, 6), Err(GovernanceError::AlreadyVoted));
    assert_eq!(vote(&mut l, member(), VoteType::For, 7), Err(GovernanceError::AlreadyVoted));
    let p = &l.proposals[0];
    assert_eq!((p.for_votes, p.against_votes, p.abstain_votes), (10, 0, 0));
    assert_eq!(l.votes.len(), 1);
    assert_eq!(score_of(&l, member()).participation_score, 20);
}

#[test]
fn vote_window_checks() {
    let mut l = setup();
    propose(&mut l, false);
    assert_eq!(vote(&mut l, member(), VoteType::For, 86401), Err(GovernanceError::VotingEnded));
    assert_eq!(vote(&mut l, member(), VoteType::For, -1), Err(GovernanceError::VotingNotStarted));
    assert_eq!(vote(&mut l, member(), VoteType::For, 86400), Ok(()));
    assert_eq!(vote(&mut l, outsider(), VoteType::For, 5), Err(GovernanceError::NotCommunityMember));
    assert_eq!(
        cast_vote(&mut l, CastVote { proposal: 3, authority: member() }, VoteType::For, 5),
        Err(GovernanceError::NotFound)
    );
}

#[test]
fn vote_on_inactive_proposal_fails() {
    let mut l = setup();
    propose(&mut l, false);
    finalize_proposal(&mut l, FinalizeProposal { proposal: 0 }, 86401).unwrap_err();
    assert_eq!(vote(&mut l, member(), VoteType::For, 5), Err(GovernanceError::InvalidProposalState));
}

#[test]
fn finalize_succeeds_with_quorum_and_majority() {
    let mut l = setup();
    let pid = propose(&mut l, false);
    assert_eq!(pid, 0);
    assert_eq!(l.proposals[0].end_time, 86400);
    vote(&mut l, founder(), VoteType::For, 100).unwrap();
    vote(&mut l, member(), VoteType::Against, 200).unwrap();
    let before = score_of(&l, founder()).participation_score;
    let r = finalize_proposal(&mut l, FinalizeProposal { proposal: 0 }, 86401);
    assert_eq!(r, Ok(ProposalStatus::Succeeded));
    assert_eq!(l.proposals[0].status, ProposalStatus::Succeeded);
    let s = score_of(&l, founder());
    assert_eq!(s.participation_score, before + 50);
    assert_eq!(s.investment_score, 0);
    assert_eq!(s.total_score, s.investment_score + s.participation_score + s.contribution_score);
}

#[test]
fn finalize_investment_proposal_adds_investment_points() {
    let mut l = setup();
    propose(&mut l, true);
    vote(&mut l, founder(), VoteType::For, 100).unwrap();
    vote(&mut l, member(), VoteType::Against, 200).unwrap();
    let before = score_of(&l, founder()).participation_score;
    let r = finalize_proposal(&mut l, FinalizeProposal { proposal: 0 }, 86401);
    assert_eq!(r, Ok(ProposalStatus::Succeeded));
    let s = score_of(&l, founder());
    assert_eq!(s.participation_score, before + 50);
    assert_eq!(s.investment_score, 25);
    assert_eq!(s.total_score, s.participation_score + 25);
}

#[test]
fn finalize_below_threshold_defeats() {
    let mut l = setup();
    propose(&mut l, false);
    vote(&mut l, member(), VoteType::Against, 100).unwrap();
    let before = score_of(&l, founder()).clone_score();
    let r = finalize_proposal(&mut l, FinalizeProposal { proposal: 0 }, 86401);
    assert_eq!(r, Err(GovernanceError::ThresholdNotReached));
    assert_eq!(l.proposals[0].status, ProposalStatus::Defeated);
    assert_eq!(score_of(&l, founder()).clone_score(), before);
}

trait ScoreParts {
    fn clone_score(&self) -> (u64, u64, u64, u64);
}

impl ScoreParts for ReputationScore {
    fn clone_score(&self) -> (u64, u64, u64, u64) {
        (self.investment_score, self.participation_score, self.contribution_score, self.total_score)
    }
}

#[test]
fn finalize_tie_is_defeated() {
    let mut l = setup();
    l.memberships[1].voting_power = 100;
    propose(&mut l, false);
    vote(&mut l, founder(), VoteType::For, 1).unwrap();
    vote(&mut l, member(), VoteType::Against, 1).unwrap();
    let r = finalize_proposal(&mut l, FinalizeProposal { proposal: 0 }, 86401);
    assert_eq!(r, Ok(ProposalStatus::Defeated));
    assert_eq!(l.proposals[0].status, ProposalStatus::Defeated);
    assert_eq!(score_of(&l, founder()).participation_score, 35);
}

#[test]
fn abstain_counts_toward_quorum_only() {
    let mut l = setup();
    l.memberships[1].voting_power = 45;
    propose(&mut l, false);
    vote(&mut l, member(), VoteType::Abstain, 1).unwrap();
    l.memberships[0].voting_power = 5;
    vote(&mut l, founder(), VoteType::For, 1).unwrap();
    let r = finalize_proposal(&mut l, FinalizeProposal { proposal: 0 }, 86401);
    assert_eq!(r, Ok(ProposalStatus::Succeeded));
}

#[test]
fn finalize_needs_closed_window_and_active_status() {
    let mut l = setup();
    propose(&mut l, false);
    vote(&mut l, founder(), VoteType::For, 1).unwrap();
    assert_eq!(
        finalize_proposal(&mut l, FinalizeProposal { proposal: 0 }, 86400),
        Err(GovernanceError::VotingStillOpen)
    );
    assert_eq!(
        finalize_proposal(&mut l, FinalizeProposal { proposal: 0 }, 0),
        Err(GovernanceError::VotingStillOpen)
    );
    assert_eq!(l.proposals[0].status, ProposalStatus::Active);
    assert_eq!(
        finalize_proposal(&mut l, FinalizeProposal { proposal: 0 }, 86401),
        Ok(ProposalStatus::Succeeded)
    );
    let score = score_of(&l, founder()).participation_score;
    assert_eq!(
        finalize_proposal(&mut l, FinalizeProposal { proposal: 0 }, 86402),
        Err(GovernanceError::InvalidProposalState)
    );
    assert_eq!(l.proposals[0].status, ProposalStatus::Succeeded);
    assert_eq!(score_of(&l, founder()).participation_score, score);
    assert_eq!(
        finalize_proposal(&mut l, FinalizeProposal { proposal: 9 }, 86402),
        Err(GovernanceError::NotFound)
    );
}

#[test]
fn execute_defeated_fails() {
    let mut l = setup();
    propose(&mut l, false);
    vote(&mut l, member(), VoteType::Against, 100).unwrap();
    let _ = finalize_proposal(&mut l, FinalizeProposal { proposal: 0 }, 86401);
    assert_eq!(l.proposals[0].status, ProposalStatus::Defeated);
    assert_eq!(
        execute_proposal(&mut l, ExecuteProposal { proposal: 0 }, 90000),
        Err(GovernanceError::InvalidProposalState)
    );
    assert_eq!(l.proposals[0].executed_at, None);
}

#[test]
fn execute_twice_fails_second_time() {
    let mut l = setup();
    propose(&mut l, false);
    vote(&mut l, founder(), VoteType::For, 100).unwrap();
    finalize_proposal(&mut l, FinalizeProposal { proposal: 0 }, 86401).unwrap();
    let before = score_of(&l, founder()).participation_score;
    assert_eq!(execute_proposal(&mut l, ExecuteProposal { proposal: 0 }, 90000), Ok(()));
    assert_eq!(l.proposals[0].status, ProposalStatus::Executed);
    assert_eq!(l.proposals[0].executed_at, Some(90000));
    assert_eq!(score_of(&l, founder()).participation_score, before + 25);
    assert_eq!(
        execute_proposal(&mut l, ExecuteProposal { proposal: 0 }, 90001),
        Err(GovernanceError::InvalidProposalState)
    );
    assert_eq!(l.proposals[0].executed_at, Some(90000));
    assert_eq!(score_of(&l, founder()).participation_score, before + 25);
}

#[test]
fn reputation_total_tracks_components() {
    let mut l = setup();
    propose(&mut l, true);
    vote(&mut l, founder(), VoteType::For, 1).unwrap();
    vote(&mut l, member(), VoteType::For, 1).unwrap();
    finalize_proposal(&mut l, FinalizeProposal { proposal: 0 }, 86401).unwrap();
    execute_proposal(&mut l, ExecuteProposal { proposal: 0 }, 86402).unwrap();
    create_investment_strategy(
        &mut l,
        CreateInvestmentStrategy { community: 0, authority: member() },
        "s".to_string(),
        "d".to_string(),
        3,
        vec![Address::new(5, 5)],
        vec![100],
        86403,
    )
    .unwrap();
    for r in l.reputations.iter() {
        assert_eq!(r.total_score, r.investment_score + r.participation_score + r.contribution_score);
    }
    let f = score_of(&l, founder());
    assert_eq!((f.investment_score, f.participation_score), (25, 25 + 10 + 50 + 25));
    let m = score_of(&l, member());
    assert_eq!((m.investment_score, m.participation_score), (30, 20));
    assert_eq!(m.last_updated, 86403);
}

#[test]
fn reputation_overflow_rolls_back() {
    let mut l = setup();
    propose(&mut l, false);
    let i = l.reputations.iter().position(|r| r.user == member()).unwrap();
    l.reputations[i].participation_score = u64::MAX - 3;
    l.reputations[i].total_score = u64::MAX - 3;
    assert_eq!(vote(&mut l, member(), VoteType::For, 1), Err(GovernanceError::MathOverflow));
    assert!(l.votes.is_empty());
    assert_eq!(l.proposals[0].for_votes, 0);
}

fn strategy(l: &mut Ledger, name: &str, risk: u8, n_targets: u64, allocations: Vec<u8>) -> Result<usize, GovernanceError> {
    let targets = (0..n_targets).map(|k| Address::new(k as u128, 0)).collect();
    create_investment_strategy(
        l,
        CreateInvestmentStrategy { community: 0, authority: member() },
        name.to_string(),
        "d".to_string(),
        risk,
        targets,
        allocations,
        50,
    )
}

#[test]
fn strategy_allocation_rules() {
    let mut l = setup();
    let bad = Err(GovernanceError::InvalidInvestmentAllocation);
    assert_eq!(strategy(&mut l, "a", 0, 2, vec![50, 50]), bad);
    assert_eq!(strategy(&mut l, "a", 6, 2, vec![50, 50]), bad);
    assert_eq!(strategy(&mut l, "a", 3, 3, vec![50, 50]), bad);
    assert_eq!(strategy(&mut l, "a", 3, 2, vec![50, 49]), bad);
    assert_eq!(strategy(&mut l, "a", 3, 2, vec![50, 51]), bad);
    assert_eq!(strategy(&mut l, "a", 3, 3, vec![200, 100, 56]), bad);
    assert_eq!(strategy(&mut l, "a", 3, 0, vec![]), bad);
    assert!(l.strategies.is_empty());
    assert_eq!(score_of(&l, member()).investment_score, 0);
    assert_eq!(strategy(&mut l, "a", 1, 2, vec![50, 50]), Ok(0));
    assert_eq!(strategy(&mut l, "b", 5, 3, vec![20, 30, 50]), Ok(1));
    let s = &l.strategies[1];
    assert_eq!(s.risk_level, 5);
    assert_eq!(s.allocation_percentages, vec![20, 30, 50]);
    assert_eq!(s.target_collections.len(), 3);
    assert_eq!(s.creator, member());
    assert_eq!(s.performance_score, 0);
    assert_eq!(s.creation_time, 50);
    assert!(s.is_active);
    assert_eq!(score_of(&l, member()).investment_score, 60);
}

#[test]
fn strategy_membership_and_name_checks() {
    let mut l = setup();
    assert_eq!(strategy(&mut l, "a", 1, 1, vec![100]), Ok(0));
    assert_eq!(strategy(&mut l, "a", 1, 1, vec![100]), Err(GovernanceError::AlreadyExists));
    let r = create_investment_strategy(
        &mut l,
        CreateInvestmentStrategy { community: 0, authority: outsider() },
        "z".to_string(),
        "d".to_string(),
        1,
        vec![Address::new(1, 0)],
        vec![100],
        50,
    );
    assert_eq!(r, Err(GovernanceError::NotCommunityMember));
}

#[test]
fn allocation_total_exact() {
    assert!(allocations_total_100(&vec![100]));
    assert!(allocations_total_100(&vec![25, 25, 25, 25]));
    assert!(!allocations_total_100(&vec![]));
    assert!(!allocations_total_100(&vec![99]));
    assert!(!allocations_total_100(&vec![101]));
    assert!(!allocations_total_100(&vec![255, 101]));
}

#[test]
fn factions_count_members() {
    let mut l = setup();
    let ctx = CreateFaction { governance: 0, authority: founder() };
    let f = create_faction(&mut l, ctx, "bulls".to_string(), "d".to_string(), "long".to_string(), 7);
    assert_eq!(f, Ok(0));
    assert_eq!(l.factions[0].member_count, 1);
    assert_eq!(l.factions[0].founder, founder());
    assert_eq!(l.factions[0].investment_strategy, "long");
    assert_eq!(l.faction_memberships[0].user, founder());
    assert_eq!(
        create_faction(&mut l, ctx, "bulls".to_string(), String::new(), String::new(), 8),
        Err(GovernanceError::AlreadyExists)
    );
    assert_eq!(join_faction(&mut l, JoinFaction { faction: 0, user: member() }, 9), Ok(1));
    assert_eq!(l.factions[0].member_count, 2);
    assert_eq!(
        join_faction(&mut l, JoinFaction { faction: 0, user: member() }, 9),
        Err(GovernanceError::AlreadyExists)
    );
    assert_eq!(
        join_faction(&mut l, JoinFaction { faction: 2, user: member() }, 9),
        Err(GovernanceError::NotFound)
    );
    l.factions[0].is_active = false;
    assert_eq!(
        join_faction(&mut l, JoinFaction { faction: 0, user: outsider() }, 9),
        Err(GovernanceError::NotActive)
    );
    assert_eq!(l.factions[0].member_count, 2);
    assert!(l.reputations.iter().all(|r| r.user != founder()));
}

#[test]
fn reputation_delta_creates_then_adds() {
    let mut l = setup();
    assert!(l.reputations.iter().all(|r| r.user != founder()));
    assert_eq!(l.apply_reputation_delta(0, founder(), 1, 2, 3, 40), Ok(()));
    let s = score_of(&l, founder());
    assert_eq!((s.investment_score, s.participation_score, s.contribution_score), (1, 2, 3));
    assert_eq!(s.total_score, 6);
    assert_eq!(s.last_updated, 40);
    assert_eq!(l.apply_reputation_delta(0, founder(), 10, 0, 5, 41), Ok(()));
    let s = score_of(&l, founder());
    assert_eq!((s.investment_score, s.participation_score, s.contribution_score), (11, 2, 8));
    assert_eq!(s.total_score, 21);
    assert_eq!(l.reputations.len(), 2);
    assert_eq!(l.apply_reputation_delta(5, founder(), 1, 0, 0, 42), Err(GovernanceError::NotFound));
    assert_eq!(
        l.apply_reputation_delta(0, founder(), u64::MAX, 0, 0, 42),
        Err(GovernanceError::MathOverflow)
    );
    assert_eq!(
        l.apply_reputation_delta(0, founder(), u64::MAX - 11, u64::MAX - 2, 0, 42),
        Err(GovernanceError::MathOverflow)
    );
    assert_eq!(score_of(&l, founder()).total_score, 21);
}
