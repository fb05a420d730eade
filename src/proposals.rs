use vstd::prelude::*;
use crate::accounting::{
    count_where, lemma_count_push, lemma_count_update, lemma_sum_none, lemma_sum_push,
};
use crate::ledger::{
    community_under, has_vote, is_active_member, membership_in, membership_of, proposal_in,
    proposal_under, tally, vote_of_type, vote_weight, Ledger,
};
use crate::reputation::{
    apply_reputation_delta, current_reputation, deltas_fit, reputation_after, reputation_delta_fits,
};
use crate::types::{
    ActivityReward, Address, Community, GovernanceConfig, GovernanceError, Proposal, ProposalStatus,
    RewardKind, Vote, VoteType,
};

verus! {

/// Participation points for casting a vote.
pub const VOTE_PARTICIPATION: u64 = 10;

/// Amount of the activity reward granted for a vote.
pub const VOTE_REWARD: u64 = 10;

/// Participation points for raising a proposal.
pub const PROPOSAL_PARTICIPATION: u64 = 25;

/// Amount of the activity reward granted for raising a proposal.
pub const PROPOSAL_REWARD: u64 = 50;

/// Participation points for the proposer of a proposal that succeeds.
pub const SUCCESS_PARTICIPATION: u64 = 50;

/// Investment points for the proposer of an investment proposal that
/// succeeds.
pub const INVESTMENT_SUCCESS_BONUS: u64 = 25;

/// Participation points for the proposer when a proposal is executed.
pub const EXECUTION_PARTICIPATION: u64 = 25;

/// The accounts a new proposal touches: the community and the proposer.
#[derive(Clone, Copy, Debug, PartialEq, Eq, Structural)]
pub struct CreateProposal {
    pub community: usize,
    pub authority: Address,
}

/// The accounts a vote touches: the proposal and the voter.
#[derive(Clone, Copy, Debug, PartialEq, Eq, Structural)]
pub struct CastVote {
    pub proposal: usize,
    pub authority: Address,
}

/// Why a proposal would be refused, in the order the checks are made;
/// `None` when it is accepted.
pub open spec fn create_proposal_error(l: Ledger, ctx: CreateProposal, now: i64) -> Option<
    GovernanceError,
> {
    if ctx.community >= l.communities@.len() {
        Some(GovernanceError::NotFound)
    } else {
        let c = l.communities@[ctx.community as int];
        let gov = l.governances@[c.governance as int];
        if !gov.is_active || !c.is_active {
            Some(GovernanceError::NotActive)
        } else if !is_active_member(l.memberships@, ctx.community, ctx.authority) {
            Some(GovernanceError::NotCommunityMember)
        } else if now + gov.voting_period > i64::MAX || now + gov.voting_period < i64::MIN {
            Some(GovernanceError::MathOverflow)
        } else if c.proposal_count + 1 > u64::MAX || gov.proposal_count + 1 > u64::MAX {
            Some(GovernanceError::MathOverflow)
        } else if !deltas_fit(
            current_reputation(l.reputations@, c.governance, ctx.authority),
            0,
            PROPOSAL_PARTICIPATION,
            0,
        ) {
            Some(GovernanceError::MathOverflow)
        } else {
            None
        }
    }
}

/// The ledger `new` is `old` after an accepted proposal with index `id`: the
/// proposal is appended, active from `now` for one voting period with empty
/// tallies; the community's and the root's proposal counters go up by one;
/// the proposer earns participation points and an activity reward.
pub open spec fn proposal_created(
    old: Ledger,
    new: Ledger,
    ctx: CreateProposal,
    title: String,
    description: String,
    is_investment_proposal: bool,
    target_collection: Option<Address>,
    investment_amount: Option<u64>,
    now: i64,
    id: usize,
) -> bool {
    let c = old.communities@[ctx.community as int];
    let gov = old.governances@[c.governance as int];
    &&& id == old.proposals@.len()
    &&& new.proposals@ == old.proposals@.push(
        Proposal {
            governance: c.governance,
            community: ctx.community,
            proposer: ctx.authority,
            title,
            description,
            status: ProposalStatus::Active,
            start_time: now,
            end_time: (now + gov.voting_period) as i64,
            instruction_count: 0,
            for_votes: 0,
            against_votes: 0,
            abstain_votes: 0,
            executed_at: None,
            is_investment_proposal,
            target_collection,
            investment_amount,
        },
    )
    &&& new.communities@ == old.communities@.update(
        ctx.community as int,
        Community { proposal_count: (c.proposal_count + 1) as u64, ..c },
    )
    &&& new.governances@ == old.governances@.update(
        c.governance as int,
        GovernanceConfig { proposal_count: (gov.proposal_count + 1) as u64, ..gov },
    )
    &&& new.reputations@ == reputation_after(
        old.reputations@,
        c.governance,
        ctx.authority,
        0,
        PROPOSAL_PARTICIPATION,
        0,
        now,
    )
    &&& new.rewards@ == old.rewards@.push(
        ActivityReward {
            user: ctx.authority,
            governance: c.governance,
            reward_type: RewardKind::Proposal,
            amount: PROPOSAL_REWARD,
            timestamp: now,
            is_claimed: false,
        },
    )
    &&& new.memberships@ == old.memberships@
    &&& new.votes@ == old.votes@
    &&& new.factions@ == old.factions@
    &&& new.faction_memberships@ == old.faction_memberships@
    &&& new.strategies@ == old.strategies@
}

/// Raises a proposal in `ctx.community` on behalf of an active member, open
/// for votes from `now` to `now + voting_period`. Returns the proposal's
/// index. On failure nothing changes.
pub fn create_proposal(
    ledger: &mut Ledger,
    ctx: CreateProposal,
    title: String,
    description: String,
    is_investment_proposal: bool,
    target_collection: Option<Address>,
    investment_amount: Option<u64>,
    now: i64,
) -> (r: Result<usize, GovernanceError>)
    requires
        old(ledger).wf(),
    ensures
        final(ledger).wf(),
        match r {
            Ok(id) => create_proposal_error(*old(ledger), ctx, now) is None && proposal_created(
                *old(ledger),
                *final(ledger),
                ctx,
                title,
                description,
                is_investment_proposal,
                target_collection,
                investment_amount,
                now,
                id,
            ),
            Err(e) => create_proposal_error(*old(ledger), ctx, now) == Some(e) && *final(ledger)
                == *old(ledger),
        },
{
    let ci = ctx.community;
    if ci >= ledger.communities.len() {
        return Err(GovernanceError::NotFound);
    }
    let g = ledger.communities[ci].governance;
    if !ledger.governances[g].is_active || !ledger.communities[ci].is_active {
        return Err(GovernanceError::NotActive);
    }
    let m = match ledger.find_membership(ci, ctx.authority) {
        Some(i) => i,
        None => return Err(GovernanceError::NotCommunityMember),
    };
    proof {
        ledger.lemma_membership_of(m as int, ci, ctx.authority);
    }
    if !ledger.memberships[m].is_active {
        return Err(GovernanceError::NotCommunityMember);
    }
    let end_time = match now.checked_add(ledger.governances[g].voting_period) {
        Some(t) => t,
        None => return Err(GovernanceError::MathOverflow),
    };
    let community_count = match ledger.communities[ci].proposal_count.checked_add(1) {
        Some(v) => v,
        None => return Err(GovernanceError::MathOverflow),
    };
    let governance_count = match ledger.governances[g].proposal_count.checked_add(1) {
        Some(v) => v,
        None => return Err(GovernanceError::MathOverflow),
    };
    if !reputation_delta_fits(
        &ledger.reputations,
        g,
        ctx.authority,
        0,
        PROPOSAL_PARTICIPATION,
        0,
        Ghost(ledger.governances@.len()),
    ) {
        return Err(GovernanceError::MathOverflow);
    }
    let ghost o = *ledger;
    apply_reputation_delta(
        &mut ledger.reputations,
        g,
        ctx.authority,
        0,
        PROPOSAL_PARTICIPATION,
        0,
        now,
        Ghost(ledger.governances@.len()),
    );
    ledger.communities[ci].proposal_count = community_count;
    ledger.governances[g].proposal_count = governance_count;
    let id = ledger.proposals.len();
    let proposal = Proposal {
        governance: g,
        community: ci,
        proposer: ctx.authority,
        title,
        description,
        status: ProposalStatus::Active,
        start_time: now,
        end_time,
        instruction_count: 0,
        for_votes: 0,
        against_votes: 0,
        abstain_votes: 0,
        executed_at: None,
        is_investment_proposal,
        target_collection,
        investment_amount,
    };
    ledger.proposals.push(proposal);
    ledger.rewards.push(
        ActivityReward {
            user: ctx.authority,
            governance: g,
            reward_type: RewardKind::Proposal,
            amount: PROPOSAL_REWARD,
            timestamp: now,
            is_claimed: false,
        },
    );
    proof {
        let oc = o.communities@[ci as int];
        let og = o.governances@[g as int];
        assert(ledger.communities@ =~= o.communities@.update(
            ci as int,
            Community { proposal_count: (oc.proposal_count + 1) as u64, ..oc },
        ));
        assert(ledger.governances@ =~= o.governances@.update(
            g as int,
            GovernanceConfig { proposal_count: (og.proposal_count + 1) as u64, ..og },
        ));
        assert forall|gi: int| 0 <= gi < ledger.governances@.len() implies
            #[trigger] ledger.governances@[gi].proposal_count == count_where(
                ledger.proposals@,
                proposal_under(gi),
            ) by {
            assert(o.governances@[gi].proposal_count == count_where(
                o.proposals@,
                proposal_under(gi),
            ));
            lemma_count_push(o.proposals@, proposal, proposal_under(gi));
        }
        assert forall|gi: int| 0 <= gi < ledger.governances@.len() implies
            #[trigger] ledger.governances@[gi].total_communities == count_where(
                ledger.communities@,
                community_under(gi),
            ) by {
            lemma_count_update(
                o.communities@,
                ci as int,
                ledger.communities@[ci as int],
                community_under(gi),
            );
            assert(o.governances@[gi].total_communities == count_where(
                o.communities@,
                community_under(gi),
            ));
        }
        assert forall|k: int| 0 <= k < ledger.communities@.len() implies
            #[trigger] ledger.communities@[k].proposal_count == count_where(
                ledger.proposals@,
                proposal_in(k),
            ) by {
            assert(o.communities@[k].proposal_count == count_where(o.proposals@, proposal_in(k)));
            lemma_count_push(o.proposals@, proposal, proposal_in(k));
        }
        assert forall|k: int| 0 <= k < ledger.communities@.len() implies
            #[trigger] ledger.communities@[k].member_count == count_where(
                ledger.memberships@,
                membership_in(k),
            ) by {
            assert(o.communities@[k].member_count == count_where(o.memberships@, membership_in(k)));
        }
        assert forall|i: int| 0 <= i < ledger.proposals@.len() implies {
            &&& #[trigger] ledger.proposals@[i].community < ledger.communities@.len()
            &&& ledger.proposals@[i].governance == ledger.communities@[ledger.proposals@[
                i
            ].community as int].governance
            &&& ledger.proposals@[i].for_votes == tally(ledger.votes@, i, VoteType::For)
            &&& ledger.proposals@[i].against_votes == tally(
                ledger.votes@,
                i,
                VoteType::Against,
            )
            &&& ledger.proposals@[i].abstain_votes == tally(
                ledger.votes@,
                i,
                VoteType::Abstain,
            )
        } by {
            if i == id as int {
                assert forall|t: VoteType| tally(ledger.votes@, id as int, t) == 0 by {
                    assert forall|k: int| 0 <= k < ledger.votes@.len() implies !(#[trigger] vote_of_type(
                        id as int,
                        t,
                    )(ledger.votes@[k])) by {
                        assert(ledger.votes@[k].proposal < id);
                    }
                    lemma_sum_none(ledger.votes@, vote_of_type(id as int, t), vote_weight());
                }
                assert(tally(ledger.votes@, id as int, VoteType::For) == 0);
                assert(tally(ledger.votes@, id as int, VoteType::Against) == 0);
                assert(tally(ledger.votes@, id as int, VoteType::Abstain) == 0);
            } else {
                assert(o.proposals@[i].community < o.communities@.len());
            }
        }
        assert(ledger.votes_wf());
        assert(ledger.rewards_wf());
        assert(ledger.communities_wf());
        assert forall|i: int, j: int|
            0 <= i < ledger.governances@.len() && 0 <= j < ledger.governances@.len() && i != j
                implies #[trigger] ledger.governances@[i].authority
                != #[trigger] ledger.governances@[j].authority by {
            assert(o.governances@[i].authority != o.governances@[j].authority);
        }
        assert(ledger.governances_wf());
    }
    Ok(id)
}

/// The proposal to finalize.
#[derive(Clone, Copy, Debug, PartialEq, Eq, Structural)]
pub struct FinalizeProposal {
    pub proposal: usize,
}

/// The proposal to execute.
#[derive(Clone, Copy, Debug, PartialEq, Eq, Structural)]
pub struct ExecuteProposal {
    pub proposal: usize,
}

/// The running tally of `t` on `p`.
pub open spec fn tally_field(p: Proposal, t: VoteType) -> u64 {
    match t {
        VoteType::For => p.for_votes,
        VoteType::Against => p.against_votes,
        VoteType::Abstain => p.abstain_votes,
    }
}

/// `p` with `power` added to the tally of `t`.
pub open spec fn with_vote(p: Proposal, t: VoteType, power: u64) -> Proposal {
    Proposal {
        for_votes: if t == VoteType::For { (p.for_votes + power) as u64 } else { p.for_votes },
        against_votes: if t == VoteType::Against {
            (p.against_votes + power) as u64
        } else {
            p.against_votes
        },
        abstain_votes: if t == VoteType::Abstain {
            (p.abstain_votes + power) as u64
        } else {
            p.abstain_votes
        },
        ..p
    }
}

/// Why a vote would be refused, in the order the checks are made; `None`
/// when it is accepted.
pub open spec fn cast_vote_error(l: Ledger, ctx: CastVote, vote_type: VoteType, now: i64) -> Option<
    GovernanceError,
> {
    if ctx.proposal >= l.proposals@.len() {
        Some(GovernanceError::NotFound)
    } else {
        let p = l.proposals@[ctx.proposal as int];
        if !l.governances@[p.governance as int].is_active {
            Some(GovernanceError::NotActive)
        } else if p.status != ProposalStatus::Active {
            Some(GovernanceError::InvalidProposalState)
        } else if now > p.end_time {
            Some(GovernanceError::VotingEnded)
        } else if now < p.start_time {
            Some(GovernanceError::VotingNotStarted)
        } else if !is_active_member(l.memberships@, p.community, ctx.authority) {
            Some(GovernanceError::NotCommunityMember)
        } else if has_vote(l.votes@, ctx.proposal, ctx.authority) {
            Some(GovernanceError::AlreadyVoted)
        } else if tally_field(p, vote_type) + membership_of(
            l.memberships@,
            p.community,
            ctx.authority,
        ).voting_power > u64::MAX {
            Some(GovernanceError::MathOverflow)
        } else if !deltas_fit(
            current_reputation(l.reputations@, p.governance, ctx.authority),
            0,
            VOTE_PARTICIPATION,
            0,
        ) {
            Some(GovernanceError::MathOverflow)
        } else {
            None
        }
    }
}

/// The ledger `new` is `old` after an accepted vote: the vote is recorded
/// with the voter's current voting power, that power is added to the tally,
/// the voter earns participation points and an activity reward.
pub open spec fn vote_recorded(old: Ledger, new: Ledger, ctx: CastVote, vote_type: VoteType, now: i64) -> bool {
    let p = old.proposals@[ctx.proposal as int];
    let power = membership_of(old.memberships@, p.community, ctx.authority).voting_power;
    &&& new.votes@ == old.votes@.push(
        Vote {
            proposal: ctx.proposal,
            voter: ctx.authority,
            vote_type,
            voting_power: power,
            vote_time: now,
        },
    )
    &&& new.proposals@ == old.proposals@.update(ctx.proposal as int, with_vote(p, vote_type, power))
    &&& new.reputations@ == reputation_after(
        old.reputations@,
        p.governance,
        ctx.authority,
        0,
        VOTE_PARTICIPATION,
        0,
        now,
    )
    &&& new.rewards@ == old.rewards@.push(
        ActivityReward {
            user: ctx.authority,
            governance: p.governance,
            reward_type: RewardKind::Vote,
            amount: VOTE_REWARD,
            timestamp: now,
            is_claimed: false,
        },
    )
    &&& new.governances@ == old.governances@
    &&& new.communities@ == old.communities@
    &&& new.memberships@ == old.memberships@
    &&& new.factions@ == old.factions@
    &&& new.faction_memberships@ == old.faction_memberships@
    &&& new.strategies@ == old.strategies@
}

/// Records the vote of `ctx.authority` on `ctx.proposal`, once per voter,
/// while the proposal is active and its window `start_time ..= end_time`
/// holds `now`. On failure nothing changes.
pub fn cast_vote(ledger: &mut Ledger, ctx: CastVote, vote_type: VoteType, now: i64) -> (r: Result<
    (),
    GovernanceError,
>)
    requires
        old(ledger).wf(),
    ensures
        final(ledger).wf(),
        match r {
            Ok(()) => cast_vote_error(*old(ledger), ctx, vote_type, now) is None && vote_recorded(
                *old(ledger),
                *final(ledger),
                ctx,
                vote_type,
                now,
            ),
            Err(e) => cast_vote_error(*old(ledger), ctx, vote_type, now) == Some(e) && *final(ledger)
                == *old(ledger),
        },
{
    if ctx.proposal >= ledger.proposals.len() {
        return Err(GovernanceError::NotFound);
    }
    let p = &ledger.proposals[ctx.proposal];
    let g = p.governance;
    let c = p.community;
    if !ledger.governances[g].is_active {
        return Err(GovernanceError::NotActive);
    }
    if p.status != ProposalStatus::Active {
        return Err(GovernanceError::InvalidProposalState);
    }
    if now > p.end_time {
        return Err(GovernanceError::VotingEnded);
    }
    if now < p.start_time {
        return Err(GovernanceError::VotingNotStarted);
    }
    let m = match ledger.find_membership(c, ctx.authority) {
        Some(i) => i,
        None => return Err(GovernanceError::NotCommunityMember),
    };
    proof {
        ledger.lemma_membership_of(m as int, c, ctx.authority);
    }
    if !ledger.memberships[m].is_active {
        return Err(GovernanceError::NotCommunityMember);
    }
    if ledger.has_vote(ctx.proposal, ctx.authority) {
        return Err(GovernanceError::AlreadyVoted);
    }
    let power = ledger.memberships[m].voting_power;
    let current = match vote_type {
        VoteType::For => p.for_votes,
        VoteType::Against => p.against_votes,
        VoteType::Abstain => p.abstain_votes,
    };
    let updated = match current.checked_add(power) {
        Some(v) => v,
        None => return Err(GovernanceError::MathOverflow),
    };
    if !reputation_delta_fits(
        &ledger.reputations,
        g,
        ctx.authority,
        0,
        VOTE_PARTICIPATION,
        0,
        Ghost(ledger.governances@.len()),
    ) {
        return Err(GovernanceError::MathOverflow);
    }
    let ghost old_ledger = *ledger;
    apply_reputation_delta(
        &mut ledger.reputations,
        g,
        ctx.authority,
        0,
        VOTE_PARTICIPATION,
        0,
        now,
        Ghost(ledger.governances@.len()),
    );
    match vote_type {
        VoteType::For => {
            ledger.proposals[ctx.proposal].for_votes = updated;
        },
        VoteType::Against => {
            ledger.proposals[ctx.proposal].against_votes = updated;
        },
        VoteType::Abstain => {
            ledger.proposals[ctx.proposal].abstain_votes = updated;
        },
    }
    let vote = Vote {
        proposal: ctx.proposal,
        voter: ctx.authority,
        vote_type,
        voting_power: power,
        vote_time: now,
    };
    ledger.votes.push(vote);
    ledger.rewards.push(
        ActivityReward {
            user: ctx.authority,
            governance: g,
            reward_type: RewardKind::Vote,
            amount: VOTE_REWARD,
            timestamp: now,
            is_claimed: false,
        },
    );
    proof {
        let o = old_ledger;
        let pid = ctx.proposal;
        assert(ledger.proposals@ =~= o.proposals@.update(
            pid as int,
            with_vote(o.proposals@[pid as int], vote_type, power),
        ));
        // governance and community counters still count the same proposals
        assert forall|gi: int| 0 <= gi < ledger.governances@.len() implies
            #[trigger] ledger.governances@[gi].proposal_count == crate::accounting::count_where(
                ledger.proposals@,
                proposal_under(gi),
            ) by {
            lemma_count_update(
                o.proposals@,
                pid as int,
                ledger.proposals@[pid as int],
                proposal_under(gi),
            );
        }
        assert forall|ci: int| 0 <= ci < ledger.communities@.len() implies
            #[trigger] ledger.communities@[ci].proposal_count == crate::accounting::count_where(
                ledger.proposals@,
                proposal_in(ci),
            ) by {
            lemma_count_update(
                o.proposals@,
                pid as int,
                ledger.proposals@[pid as int],
                proposal_in(ci),
            );
        }
        // tallies follow the recorded votes
        assert forall|i: int| 0 <= i < ledger.proposals@.len() implies {
            &&& #[trigger] ledger.proposals@[i].community < ledger.communities@.len()
            &&& ledger.proposals@[i].governance == ledger.communities@[ledger.proposals@[
                i
            ].community as int].governance
            &&& ledger.proposals@[i].for_votes == tally(ledger.votes@, i, VoteType::For)
            &&& ledger.proposals@[i].against_votes == tally(
                ledger.votes@,
                i,
                VoteType::Against,
            )
            &&& ledger.proposals@[i].abstain_votes == tally(
                ledger.votes@,
                i,
                VoteType::Abstain,
            )
        } by {
            assert(o.proposals@[i].community < o.communities@.len());
            lemma_sum_push(o.votes@, vote, vote_of_type(i, VoteType::For), vote_weight());
            lemma_sum_push(o.votes@, vote, vote_of_type(i, VoteType::Against), vote_weight());
            lemma_sum_push(o.votes@, vote, vote_of_type(i, VoteType::Abstain), vote_weight());
        }
        assert forall|i: int, j: int|
            0 <= i < ledger.votes@.len() && 0 <= j < ledger.votes@.len() && i != j
                && #[trigger] ledger.votes@[i].proposal == #[trigger] ledger.votes@[j].proposal implies
            ledger.votes@[i].voter != ledger.votes@[j].voter by {
            let n = o.votes@.len() as int;
            if i == n {
                assert(!(o.votes@[j].proposal == pid && o.votes@[j].voter == ctx.authority));
            }
            if j == n {
                assert(!(o.votes@[i].proposal == pid && o.votes@[i].voter == ctx.authority));
            }
        }
        assert(ledger.votes_wf());
        assert(ledger.rewards_wf());
    }
    Ok(())
}

/// Status a decidable proposal ends in: success needs strictly more votes
/// for than against; abstentions count only toward the quorum.
pub open spec fn outcome(p: Proposal) -> ProposalStatus {
    if p.for_votes > p.against_votes {
        ProposalStatus::Succeeded
    } else {
        ProposalStatus::Defeated
    }
}

/// Investment points the proposer of `p` earns when it succeeds.
pub open spec fn success_bonus(p: Proposal) -> u64 {
    if p.is_investment_proposal {
        INVESTMENT_SUCCESS_BONUS
    } else {
        0
    }
}

/// Why finalizing would fail, in the order the checks are made; `None` when
/// the proposal is decided.
pub open spec fn finalize_proposal_error(l: Ledger, ctx: FinalizeProposal, now: i64) -> Option<
    GovernanceError,
> {
    if ctx.proposal >= l.proposals@.len() {
        Some(GovernanceError::NotFound)
    } else {
        let p = l.proposals@[ctx.proposal as int];
        let gov = l.governances@[p.governance as int];
        if !gov.is_active {
            Some(GovernanceError::NotActive)
        } else if now <= p.end_time {
            Some(GovernanceError::VotingStillOpen)
        } else if p.status != ProposalStatus::Active {
            Some(GovernanceError::InvalidProposalState)
        } else if p.for_votes + p.against_votes + p.abstain_votes > u64::MAX {
            Some(GovernanceError::MathOverflow)
        } else if p.for_votes + p.against_votes + p.abstain_votes < gov.min_vote_threshold {
            Some(GovernanceError::ThresholdNotReached)
        } else if outcome(p) == ProposalStatus::Succeeded && !deltas_fit(
            current_reputation(l.reputations@, p.governance, p.proposer),
            success_bonus(p),
            SUCCESS_PARTICIPATION,
            0,
        ) {
            Some(GovernanceError::MathOverflow)
        } else {
            None
        }
    }
}

/// `new` is `old` with proposal `i` moved to `status`, everything else as
/// it was.
pub open spec fn status_set(old: Ledger, new: Ledger, i: int, status: ProposalStatus) -> bool {
    &&& new.proposals@ == old.proposals@.update(i, Proposal { status, ..old.proposals@[i] })
    &&& new.reputations@ == old.reputations@
    &&& new.governances@ == old.governances@
    &&& new.communities@ == old.communities@
    &&& new.memberships@ == old.memberships@
    &&& new.votes@ == old.votes@
    &&& new.rewards@ == old.rewards@
    &&& new.factions@ == old.factions@
    &&& new.faction_memberships@ == old.faction_memberships@
    &&& new.strategies@ == old.strategies@
}

/// `new` is `old` after a decided proposal: its status is the outcome and,
/// on success, the proposer earns participation points, plus investment
/// points for an investment proposal.
pub open spec fn proposal_decided(old: Ledger, new: Ledger, ctx: FinalizeProposal, now: i64) -> bool {
    let p = old.proposals@[ctx.proposal as int];
    &&& new.proposals@ == old.proposals@.update(
        ctx.proposal as int,
        Proposal { status: outcome(p), ..p },
    )
    &&& new.reputations@ == if outcome(p) == ProposalStatus::Succeeded {
        reputation_after(
            old.reputations@,
            p.governance,
            p.proposer,
            success_bonus(p),
            SUCCESS_PARTICIPATION,
            0,
            now,
        )
    } else {
        old.reputations@
    }
    &&& new.governances@ == old.governances@
    &&& new.communities@ == old.communities@
    &&& new.memberships@ == old.memberships@
    &&& new.votes@ == old.votes@
    &&& new.rewards@ == old.rewards@
    &&& new.factions@ == old.factions@
    &&& new.faction_memberships@ == old.faction_memberships@
    &&& new.strategies@ == old.strategies@
}

/// Decides an active proposal once its voting window has closed
/// (`now > end_time`). Below the quorum the proposal is marked `Defeated`
/// and `ThresholdNotReached` is reported, that status change being kept;
/// otherwise it ends `Succeeded` or `Defeated` and the new status is
/// returned. Every other failure changes nothing.
pub fn finalize_proposal(ledger: &mut Ledger, ctx: FinalizeProposal, now: i64) -> (r: Result<
    ProposalStatus,
    GovernanceError,
>)
    requires
        old(ledger).wf(),
    ensures
        final(ledger).wf(),
        match r {
            Ok(status) => finalize_proposal_error(*old(ledger), ctx, now) is None && status == outcome(
                old(ledger).proposals@[ctx.proposal as int],
            ) && proposal_decided(*old(ledger), *final(ledger), ctx, now),
            Err(e) => finalize_proposal_error(*old(ledger), ctx, now) == Some(e) && if e
                == GovernanceError::ThresholdNotReached {
                status_set(
                    *old(ledger),
                    *final(ledger),
                    ctx.proposal as int,
                    ProposalStatus::Defeated,
                )
            } else {
                *final(ledger) == *old(ledger)
            },
        },
{
    let pi = ctx.proposal;
    if pi >= ledger.proposals.len() {
        return Err(GovernanceError::NotFound);
    }
    let g = ledger.proposals[pi].governance;
    proof {
        assert(ledger.communities@[ledger.proposals@[pi as int].community as int].governance
            < ledger.governances@.len());
    }
    if !ledger.governances[g].is_active {
        return Err(GovernanceError::NotActive);
    }
    if now <= ledger.proposals[pi].end_time {
        return Err(GovernanceError::VotingStillOpen);
    }
    if ledger.proposals[pi].status != ProposalStatus::Active {
        return Err(GovernanceError::InvalidProposalState);
    }
    let for_votes = ledger.proposals[pi].for_votes;
    let against_votes = ledger.proposals[pi].against_votes;
    let total = match for_votes.checked_add(against_votes) {
        Some(v) => match v.checked_add(ledger.proposals[pi].abstain_votes) {
            Some(t) => t,
            None => return Err(GovernanceError::MathOverflow),
        },
        None => return Err(GovernanceError::MathOverflow),
    };
    let ghost o = *ledger;
    if total < ledger.governances[g].min_vote_threshold {
        ledger.proposals[pi].status = ProposalStatus::Defeated;
        proof {
            assert(ledger.proposals@ =~= o.proposals@.update(
                pi as int,
                Proposal { status: ProposalStatus::Defeated, ..o.proposals@[pi as int] },
            ));
            Ledger::lemma_proposal_rewritten(o, *ledger, pi as int, ledger.proposals@[pi as int]);
        }
        return Err(GovernanceError::ThresholdNotReached);
    }
    if for_votes > against_votes {
        let proposer = ledger.proposals[pi].proposer;
        let bonus: u64 = if ledger.proposals[pi].is_investment_proposal {
            INVESTMENT_SUCCESS_BONUS
        } else {
            0
        };
        if !reputation_delta_fits(
            &ledger.reputations,
            g,
            proposer,
            bonus,
            SUCCESS_PARTICIPATION,
            0,
            Ghost(ledger.governances@.len()),
        ) {
            return Err(GovernanceError::MathOverflow);
        }
        apply_reputation_delta(
            &mut ledger.reputations,
            g,
            proposer,
            bonus,
            SUCCESS_PARTICIPATION,
            0,
            now,
            Ghost(ledger.governances@.len()),
        );
        ledger.proposals[pi].status = ProposalStatus::Succeeded;
    } else {
        ledger.proposals[pi].status = ProposalStatus::Defeated;
    }
    let status = ledger.proposals[pi].status;
    proof {
        assert(ledger.proposals@ =~= o.proposals@.update(
            pi as int,
            Proposal { status: outcome(o.proposals@[pi as int]), ..o.proposals@[pi as int] },
        ));
        Ledger::lemma_proposal_rewritten(o, *ledger, pi as int, ledger.proposals@[pi as int]);
    }
    Ok(status)
}

/// Why executing would fail; `None` when it is accepted.
pub open spec fn execute_proposal_error(l: Ledger, ctx: ExecuteProposal) -> Option<GovernanceError> {
    if ctx.proposal >= l.proposals@.len() {
        Some(GovernanceError::NotFound)
    } else {
        let p = l.proposals@[ctx.proposal as int];
        if p.status != ProposalStatus::Succeeded {
            Some(GovernanceError::InvalidProposalState)
        } else if !deltas_fit(
            current_reputation(l.reputations@, p.governance, p.proposer),
            0,
            EXECUTION_PARTICIPATION,
            0,
        ) {
            Some(GovernanceError::MathOverflow)
        } else {
            None
        }
    }
}

/// `new` is `old` after executing proposal `ctx.proposal` at `now`.
pub open spec fn proposal_executed(old: Ledger, new: Ledger, ctx: ExecuteProposal, now: i64) -> bool {
    let p = old.proposals@[ctx.proposal as int];
    &&& new.proposals@ == old.proposals@.update(
        ctx.proposal as int,
        Proposal { status: ProposalStatus::Executed, executed_at: Some(now), ..p },
    )
    &&& new.reputations@ == reputation_after(
        old.reputations@,
        p.governance,
        p.proposer,
        0,
        EXECUTION_PARTICIPATION,
        0,
        now,
    )
    &&& new.governances@ == old.governances@
    &&& new.communities@ == old.communities@
    &&& new.memberships@ == old.memberships@
    &&& new.votes@ == old.votes@
    &&& new.rewards@ == old.rewards@
    &&& new.factions@ == old.factions@
    &&& new.faction_memberships@ == old.faction_memberships@
    &&& new.strategies@ == old.strategies@
}

/// Marks a succeeded proposal executed at `now` and credits its proposer.
/// No attached instruction is run. On failure nothing changes.
pub fn execute_proposal(ledger: &mut Ledger, ctx: ExecuteProposal, now: i64) -> (r: Result<
    (),
    GovernanceError,
>)
    requires
        old(ledger).wf(),
    ensures
        final(ledger).wf(),
        match r {
            Ok(()) => execute_proposal_error(*old(ledger), ctx) is None && proposal_executed(
                *old(ledger),
                *final(ledger),
                ctx,
                now,
            ),
            Err(e) => execute_proposal_error(*old(ledger), ctx) == Some(e) && *final(ledger)
                == *old(ledger),
        },
{
    let pi = ctx.proposal;
    if pi >= ledger.proposals.len() {
        return Err(GovernanceError::NotFound);
    }
    if ledger.proposals[pi].status != ProposalStatus::Succeeded {
        return Err(GovernanceError::InvalidProposalState);
    }
    let g = ledger.proposals[pi].governance;
    let proposer = ledger.proposals[pi].proposer;
    proof {
        assert(ledger.communities@[ledger.proposals@[pi as int].community as int].governance
            < ledger.governances@.len());
    }
    if !reputation_delta_fits(
        &ledger.reputations,
        g,
        proposer,
        0,
        EXECUTION_PARTICIPATION,
        0,
        Ghost(ledger.governances@.len()),
    ) {
        return Err(GovernanceError::MathOverflow);
    }
    let ghost o = *ledger;
    apply_reputation_delta(
        &mut ledger.reputations,
        g,
        proposer,
        0,
        EXECUTION_PARTICIPATION,
        0,
        now,
        Ghost(ledger.governances@.len()),
    );
    ledger.proposals[pi].status = ProposalStatus::Executed;
    ledger.proposals[pi].executed_at = Some(now);
    proof {
        assert(ledger.proposals@ =~= o.proposals@.update(
            pi as int,
            Proposal {
                status: ProposalStatus::Executed,
                executed_at: Some(now),
                ..o.proposals@[pi as int]
            },
        ));
        Ledger::lemma_proposal_rewritten(o, *ledger, pi as int, ledger.proposals@[pi as int]);
    }
    Ok(())
}

} // verus!
