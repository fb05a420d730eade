use vstd::prelude::*;
use crate::accounting::{lemma_sum_split3, sum_of};
use crate::ledger::{
    has_vote, score_consistent, tally, vote_of_type, vote_on, vote_weight, votes_cast, Ledger,
};
use crate::proposals::{
    cast_vote_error, execute_proposal_error, finalize_proposal_error, proposal_executed,
    vote_recorded, CastVote, ExecuteProposal, FinalizeProposal,
};
use crate::strategies::{create_strategy_error, CreateInvestmentStrategy};
use crate::types::{Address, GovernanceError, ProposalStatus, VoteType};

verus! {

/// The three tallies of a proposal add up to the voting power of all votes
/// recorded on it. Every operation keeps the ledger well formed, so this
/// holds after any sequence of votes.
pub proof fn tallies_match_recorded_votes(l: Ledger, p: int)
    requires
        l.wf(),
        0 <= p < l.proposals@.len(),
    ensures
        l.proposals@[p].for_votes + l.proposals@[p].against_votes + l.proposals@[p].abstain_votes
            == votes_cast(l.votes@, p),
{
    assert(l.proposals@[p].community < l.communities@.len());
    lemma_sum_split3(
        l.votes@,
        vote_on(p),
        vote_of_type(p, VoteType::For),
        vote_of_type(p, VoteType::Against),
        vote_of_type(p, VoteType::Abstain),
        vote_weight(),
    );
    assert(l.proposals@[p].for_votes == tally(l.votes@, p, VoteType::For));
}

/// After a vote of `ctx.authority` on `ctx.proposal` has been recorded, a
/// second vote by the same voter on the same proposal is refused, whatever
/// its type and time; a refused vote leaves the ledger, tallies included,
/// as it was.
pub proof fn second_vote_refused(
    before: Ledger,
    after: Ledger,
    ctx: CastVote,
    first: VoteType,
    second: VoteType,
    first_time: i64,
    second_time: i64,
)
    requires
        before.wf(),
        cast_vote_error(before, ctx, first, first_time) is None,
        vote_recorded(before, after, ctx, first, first_time),
    ensures
        cast_vote_error(after, ctx, second, second_time) is Some,
{
    let i = before.votes@.len() as int;
    assert(after.votes@[i].proposal == ctx.proposal && after.votes@[i].voter == ctx.authority);
    assert(has_vote(after.votes@, ctx.proposal, ctx.authority));
}

/// Finalizing fails while the voting window is open (`now <= end_time`) or
/// when the proposal is not active, and such a failure is never the
/// quorum failure, so the ledger is left as it was.
pub proof fn finalize_needs_closed_active(l: Ledger, ctx: FinalizeProposal, now: i64)
    requires
        l.wf(),
        ctx.proposal < l.proposals@.len(),
        now <= l.proposals@[ctx.proposal as int].end_time || l.proposals@[ctx.proposal as int].status
            != ProposalStatus::Active,
    ensures
        finalize_proposal_error(l, ctx, now) is Some,
        finalize_proposal_error(l, ctx, now) != Some(GovernanceError::ThresholdNotReached),
{
}

/// Every reputation record's total is the sum of its three components.
pub proof fn reputation_total_is_sum(l: Ledger, i: int)
    requires
        l.wf(),
        0 <= i < l.reputations@.len(),
    ensures
        l.reputations@[i].total_score == l.reputations@[i].investment_score
            + l.reputations@[i].participation_score + l.reputations@[i].contribution_score,
{
    assert(l.reputations@[i].governance < l.governances@.len());
    assert(score_consistent(l.reputations@[i]));
}

/// A strategy is accepted only with a risk level in 1..=5, one percentage
/// per target and percentages adding up to exactly 100; any other
/// allocation is refused.
pub proof fn strategy_allocation_rule(
    l: Ledger,
    ctx: CreateInvestmentStrategy,
    name: Seq<char>,
    risk_level: u8,
    targets: Seq<Address>,
    allocations: Seq<u8>,
)
    requires
        l.wf(),
    ensures
        create_strategy_error(l, ctx, name, risk_level, targets, allocations) is None ==> 1
            <= risk_level <= 5 && targets.len() == allocations.len() && sum_of(allocations) == 100,
        !(1 <= risk_level <= 5 && targets.len() == allocations.len() && sum_of(allocations) == 100)
            ==> create_strategy_error(l, ctx, name, risk_level, targets, allocations) is Some,
{
}

/// A proposal is executed at most once: after a successful execution, a
/// second one is refused with `InvalidProposalState`.
pub proof fn execution_happens_once(before: Ledger, after: Ledger, ctx: ExecuteProposal, now: i64)
    requires
        before.wf(),
        execute_proposal_error(before, ctx) is None,
        proposal_executed(before, after, ctx, now),
    ensures
        execute_proposal_error(after, ctx) == Some(GovernanceError::InvalidProposalState),
{
}

} // verus!
