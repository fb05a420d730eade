use vstd::prelude::*;
use crate::accounting::{lemma_sum_of_prefix, lemma_sum_of_step, sum_of};
use crate::ledger::{has_strategy_named, is_active_member, valid_allocation, Ledger};
use crate::reputation::{
    apply_reputation_delta, current_reputation, deltas_fit, reputation_after, reputation_delta_fits,
};
use crate::types::{Address, GovernanceError, InvestmentStrategy};

verus! {

/// Investment points for creating an investment strategy.
pub const STRATEGY_INVESTMENT: u64 = 30;

/// The community a strategy is created in, and its creator.
#[derive(Clone, Copy, Debug, PartialEq, Eq, Structural)]
pub struct CreateInvestmentStrategy {
    pub community: usize,
    pub authority: Address,
}

/// Whether the percentages add up to exactly 100.
pub fn allocations_total_100(allocations: &Vec<u8>) -> (r: bool)
    ensures
        r == (sum_of(allocations@) == 100),
{
    let mut sum: u64 = 0;
    let mut i: usize = 0;
    while i < allocations.len()
        invariant
            i <= allocations@.len(),
            sum == sum_of(allocations@.take(i as int)),
            sum <= 100,
        decreases allocations@.len() - i,
    {
        proof {
            lemma_sum_of_step(allocations@, i as int);
        }
        sum = sum + allocations[i] as u64;
        i = i + 1;
        if sum > 100 {
            proof {
                lemma_sum_of_prefix(allocations@, i as int);
            }
            return false;
        }
    }
    proof {
        assert(allocations@.take(i as int) =~= allocations@);
    }
    sum == 100
}

/// Why a strategy would be refused, in the order the checks are made;
/// `None` when it is accepted.
pub open spec fn create_strategy_error(
    l: Ledger,
    ctx: CreateInvestmentStrategy,
    name: Seq<char>,
    risk_level: u8,
    target_collections: Seq<Address>,
    allocation_percentages: Seq<u8>,
) -> Option<GovernanceError> {
    if ctx.community >= l.communities@.len() {
        Some(GovernanceError::NotFound)
    } else {
        let c = l.communities@[ctx.community as int];
        if !c.is_active {
            Some(GovernanceError::NotActive)
        } else if !is_active_member(l.memberships@, ctx.community, ctx.authority) {
            Some(GovernanceError::NotCommunityMember)
        } else if has_strategy_named(l.strategies@, ctx.community, name) {
            Some(GovernanceError::AlreadyExists)
        } else if !valid_allocation(risk_level, target_collections, allocation_percentages) {
            Some(GovernanceError::InvalidInvestmentAllocation)
        } else if !deltas_fit(
            current_reputation(l.reputations@, c.governance, ctx.authority),
            STRATEGY_INVESTMENT,
            0,
            0,
        ) {
            Some(GovernanceError::MathOverflow)
        } else {
            None
        }
    }
}

/// `new` is `old` after strategy `id` was created: the strategy is appended,
/// active with a zero performance score, and its creator earns investment
/// points.
pub open spec fn strategy_created(
    old: Ledger,
    new: Ledger,
    ctx: CreateInvestmentStrategy,
    name: String,
    description: String,
    risk_level: u8,
    target_collections: Vec<Address>,
    allocation_percentages: Vec<u8>,
    now: i64,
    id: usize,
) -> bool {
    let c = old.communities@[ctx.community as int];
    &&& id == old.strategies@.len()
    &&& new.strategies@ == old.strategies@.push(
        InvestmentStrategy {
            community: ctx.community,
            name,
            description,
            creator: ctx.authority,
            risk_level,
            target_collections,
            allocation_percentages,
            creation_time: now,
            last_updated: now,
            performance_score: 0,
            is_active: true,
        },
    )
    &&& new.reputations@ == reputation_after(
        old.reputations@,
        c.governance,
        ctx.authority,
        STRATEGY_INVESTMENT,
        0,
        0,
        now,
    )
    &&& new.governances@ == old.governances@
    &&& new.communities@ == old.communities@
    &&& new.memberships@ == old.memberships@
    &&& new.proposals@ == old.proposals@
    &&& new.votes@ == old.votes@
    &&& new.rewards@ == old.rewards@
    &&& new.factions@ == old.factions@
    &&& new.faction_memberships@ == old.faction_memberships@
}

/// Records an investment strategy of an active member: the risk level must
/// lie in 1..=5, there must be one percentage per target collection, and the
/// percentages must add up to exactly 100. Returns the strategy's index. On
/// failure nothing changes.
pub fn create_investment_strategy(
    ledger: &mut Ledger,
    ctx: CreateInvestmentStrategy,
    name: String,
    description: String,
    risk_level: u8,
    target_collections: Vec<Address>,
    allocation_percentages: Vec<u8>,
    now: i64,
) -> (r: Result<usize, GovernanceError>)
    requires
        old(ledger).wf(),
    ensures
        final(ledger).wf(),
        match r {
            Ok(id) => create_strategy_error(
                *old(ledger),
                ctx,
                name@,
                risk_level,
                target_collections@,
                allocation_percentages@,
            ) is None && strategy_created(
                *old(ledger),
                *final(ledger),
                ctx,
                name,
                description,
                risk_level,
                target_collections,
                allocation_percentages,
                now,
                id,
            ),
            Err(e) => create_strategy_error(
                *old(ledger),
                ctx,
                name@,
                risk_level,
                target_collections@,
                allocation_percentages@,
            ) == Some(e) && *final(ledger) == *old(ledger),
        },
{
    let ci = ctx.community;
    if ci >= ledger.communities.len() {
        return Err(GovernanceError::NotFound);
    }
    if !ledger.communities[ci].is_active {
        return Err(GovernanceError::NotActive);
    }
    let m = match ledger.find_membership(ci, ctx.authority) {
        Some(i) => i,
        None => return Err(GovernanceError::NotCommunityMember),
    };
    proof {
        ledger.lemma_membership_of(m as int, ci, ctx.authority);
    }
    if !ledger.memberships[m].is_active {
        return Err(GovernanceError::NotCommunityMember);
    }
    if ledger.has_strategy_named(ci, &name) {
        return Err(GovernanceError::AlreadyExists);
    }
    if risk_level == 0 || risk_level > 5 {
        return Err(GovernanceError::InvalidInvestmentAllocation);
    }
    if target_collections.len() != allocation_percentages.len() {
        return Err(GovernanceError::InvalidInvestmentAllocation);
    }
    if !allocations_total_100(&allocation_percentages) {
        return Err(GovernanceError::InvalidInvestmentAllocation);
    }
    let g = ledger.communities[ci].governance;
    if !reputation_delta_fits(
        &ledger.reputations,
        g,
        ctx.authority,
        STRATEGY_INVESTMENT,
        0,
        0,
        Ghost(ledger.governances@.len()),
    ) {
        return Err(GovernanceError::MathOverflow);
    }
    let ghost o = *ledger;
    apply_reputation_delta(
        &mut ledger.reputations,
        g,
        ctx.authority,
        STRATEGY_INVESTMENT,
        0,
        0,
        now,
        Ghost(ledger.governances@.len()),
    );
    let id = ledger.strategies.len();
    let strategy = InvestmentStrategy {
        community: ci,
        name,
        description,
        creator: ctx.authority,
        risk_level,
        target_collections,
        allocation_percentages,
        creation_time: now,
        last_updated: now,
        performance_score: 0,
        is_active: true,
    };
    ledger.strategies.push(strategy);
    proof {
        assert forall|i: int, j: int|
            0 <= i < ledger.strategies@.len() && 0 <= j < ledger.strategies@.len() && i != j
                && #[trigger] ledger.strategies@[i].community
                == #[trigger] ledger.strategies@[j].community implies ledger.strategies@[i].name@
                != ledger.strategies@[j].name@ by {
            if i == id as int {
                assert(!(o.strategies@[j].community == ci && o.strategies@[j].name@
                    == strategy.name@));
            }
            if j == id as int {
                assert(!(o.strategies@[i].community == ci && o.strategies@[i].name@
                    == strategy.name@));
            }
        }
        assert(ledger.strategies_wf());
    }
    Ok(id)
}

} // verus!
