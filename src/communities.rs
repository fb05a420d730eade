use vstd::prelude::*;
use crate::accounting::{count_where, lemma_count_none, lemma_count_push, lemma_count_update};
use crate::ledger::{
    community_under, has_community_named, has_governance, has_membership, membership_at,
    membership_in, proposal_in, proposal_under, Ledger,
};
use crate::reputation::{
    apply_reputation_delta, current_reputation, deltas_fit, reputation_after, reputation_delta_fits,
};
use crate::types::{Address, Community, GovernanceConfig, GovernanceError, Membership, Role};

verus! {

/// Voting power of a community's founder.
pub const ADMIN_VOTING_POWER: u64 = 100;

/// Cached reputation of a community's founder.
pub const ADMIN_REPUTATION: u64 = 100;

/// Voting power of a member who joins.
pub const MEMBER_VOTING_POWER: u64 = 10;

/// Cached reputation of a member who joins.
pub const MEMBER_REPUTATION: u64 = 10;

/// Participation points for joining a community.
pub const JOIN_PARTICIPATION: u64 = 10;

/// The authority a governance root is created for.
#[derive(Clone, Copy, Debug, PartialEq, Eq, Structural)]
pub struct InitializeGovernance {
    pub authority: Address,
}

/// The governance root a community is created under, and its founder.
#[derive(Clone, Copy, Debug, PartialEq, Eq, Structural)]
pub struct CreateCommunity {
    pub governance: usize,
    pub authority: Address,
}

/// The community joined, and the joining user.
#[derive(Clone, Copy, Debug, PartialEq, Eq, Structural)]
pub struct JoinCommunity {
    pub community: usize,
    pub user: Address,
}

/// `new` is `old` with `rec` appended to the governance roots.
pub open spec fn governance_created(old: Ledger, new: Ledger, rec: GovernanceConfig) -> bool {
    &&& new.governances@ == old.governances@.push(rec)
    &&& new.communities@ == old.communities@
    &&& new.memberships@ == old.memberships@
    &&& new.proposals@ == old.proposals@
    &&& new.votes@ == old.votes@
    &&& new.reputations@ == old.reputations@
    &&& new.rewards@ == old.rewards@
    &&& new.factions@ == old.factions@
    &&& new.faction_memberships@ == old.faction_memberships@
    &&& new.strategies@ == old.strategies@
}

/// Creates the governance root of `ctx.authority`, active and with zeroed
/// counters, and returns its index. Fails with `AlreadyExists`, changing
/// nothing, when that authority already has one.
pub fn initialize_governance(
    ledger: &mut Ledger,
    ctx: InitializeGovernance,
    name: String,
    min_vote_threshold: u64,
    voting_period: i64,
) -> (r: Result<usize, GovernanceError>)
    requires
        old(ledger).wf(),
    ensures
        final(ledger).wf(),
        match r {
            Ok(id) => !has_governance(old(ledger).governances@, ctx.authority) && id
                == old(ledger).governances@.len() && governance_created(
                *old(ledger),
                *final(ledger),
                GovernanceConfig {
                    authority: ctx.authority,
                    name,
                    min_vote_threshold,
                    voting_period,
                    proposal_count: 0,
                    total_communities: 0,
                    is_active: true,
                },
            ),
            Err(e) => has_governance(old(ledger).governances@, ctx.authority) && e
                == GovernanceError::AlreadyExists && *final(ledger) == *old(ledger),
        },
{
    if let Some(_) = ledger.find_governance(ctx.authority) {
        return Err(GovernanceError::AlreadyExists);
    }
    let ghost o = *ledger;
    let id = ledger.governances.len();
    ledger.governances.push(
        GovernanceConfig {
            authority: ctx.authority,
            name,
            min_vote_threshold,
            voting_period,
            proposal_count: 0,
            total_communities: 0,
            is_active: true,
        },
    );
    proof {
        assert forall|k: int| 0 <= k < ledger.communities@.len() implies !(#[trigger] community_under(
            id as int,
        )(ledger.communities@[k])) by {
            assert(ledger.communities@[k].governance < id);
        }
        lemma_count_none(ledger.communities@, community_under(id as int));
        assert forall|k: int| 0 <= k < ledger.proposals@.len() implies !(#[trigger] proposal_under(
            id as int,
        )(ledger.proposals@[k])) by {
            let c = ledger.proposals@[k].community as int;
            assert(ledger.communities@[c].governance < id);
        }
        lemma_count_none(ledger.proposals@, proposal_under(id as int));
        assert forall|i: int, j: int|
            0 <= i < ledger.governances@.len() && 0 <= j < ledger.governances@.len() && i != j
                implies #[trigger] ledger.governances@[i].authority
                != #[trigger] ledger.governances@[j].authority by {
            if i == id as int {
                assert(o.governances@[j].authority != ctx.authority);
            }
            if j == id as int {
                assert(o.governances@[i].authority != ctx.authority);
            }
        }
        assert forall|g: int| 0 <= g < ledger.governances@.len() implies
            #[trigger] ledger.governances@[g].total_communities == count_where(
                ledger.communities@,
                community_under(g),
            ) by {
            if g < id as int {
                assert(o.governances@[g].total_communities == count_where(
                    o.communities@,
                    community_under(g),
                ));
            }
        }
        assert forall|g: int| 0 <= g < ledger.governances@.len() implies
            #[trigger] ledger.governances@[g].proposal_count == count_where(
                ledger.proposals@,
                proposal_under(g),
            ) by {
            if g < id as int {
                assert(o.governances@[g].proposal_count == count_where(
                    o.proposals@,
                    proposal_under(g),
                ));
            }
        }
        assert(ledger.governances_wf());
        assert(ledger.communities_wf());
        assert(ledger.reputations_wf());
        assert(ledger.rewards_wf());
        assert(ledger.factions_wf());
    }
    Ok(id)
}

/// Why a community would be refused, in the order the checks are made;
/// `None` when it is accepted.
pub open spec fn create_community_error(l: Ledger, ctx: CreateCommunity, name: Seq<char>) -> Option<
    GovernanceError,
> {
    if ctx.governance >= l.governances@.len() {
        Some(GovernanceError::NotFound)
    } else if !l.governances@[ctx.governance as int].is_active {
        Some(GovernanceError::NotActive)
    } else if has_community_named(l.communities@, ctx.governance, name) {
        Some(GovernanceError::AlreadyExists)
    } else if l.governances@[ctx.governance as int].total_communities + 1 > u64::MAX {
        Some(GovernanceError::MathOverflow)
    } else {
        None
    }
}

/// `new` is `old` after community `id` was created: the community and its
/// founder's admin membership are appended, and the root counts one more
/// community.
pub open spec fn community_created(
    old: Ledger,
    new: Ledger,
    ctx: CreateCommunity,
    name: String,
    description: String,
    now: i64,
    id: usize,
) -> bool {
    let gov = old.governances@[ctx.governance as int];
    &&& id == old.communities@.len()
    &&& new.communities@ == old.communities@.push(
        Community {
            governance: ctx.governance,
            name,
            description,
            authority: ctx.authority,
            member_count: 1,
            proposal_count: 0,
            creation_time: now,
            is_active: true,
        },
    )
    &&& new.memberships@ == old.memberships@.push(
        Membership {
            community: id,
            user: ctx.authority,
            role: Role::Admin,
            voting_power: ADMIN_VOTING_POWER,
            join_time: now,
            reputation_score: ADMIN_REPUTATION,
            is_active: true,
        },
    )
    &&& new.governances@ == old.governances@.update(
        ctx.governance as int,
        GovernanceConfig { total_communities: (gov.total_communities + 1) as u64, ..gov },
    )
    &&& new.proposals@ == old.proposals@
    &&& new.votes@ == old.votes@
    &&& new.reputations@ == old.reputations@
    &&& new.rewards@ == old.rewards@
    &&& new.factions@ == old.factions@
    &&& new.faction_memberships@ == old.faction_memberships@
    &&& new.strategies@ == old.strategies@
}

/// Creates a community under an active governance root, with its founder
/// as first member (admin), and returns its index. Names are unique under a
/// root. On failure nothing changes.
pub fn create_community(
    ledger: &mut Ledger,
    ctx: CreateCommunity,
    name: String,
    description: String,
    now: i64,
) -> (r: Result<usize, GovernanceError>)
    requires
        old(ledger).wf(),
    ensures
        final(ledger).wf(),
        match r {
            Ok(id) => create_community_error(*old(ledger), ctx, name@) is None && community_created(
                *old(ledger),
                *final(ledger),
                ctx,
                name,
                description,
                now,
                id,
            ),
            Err(e) => create_community_error(*old(ledger), ctx, name@) == Some(e) && *final(ledger)
                == *old(ledger),
        },
{
    let g = ctx.governance;
    if g >= ledger.governances.len() {
        return Err(GovernanceError::NotFound);
    }
    if !ledger.governances[g].is_active {
        return Err(GovernanceError::NotActive);
    }
    if ledger.has_community_named(g, &name) {
        return Err(GovernanceError::AlreadyExists);
    }
    let total = match ledger.governances[g].total_communities.checked_add(1) {
        Some(v) => v,
        None => return Err(GovernanceError::MathOverflow),
    };
    let ghost o = *ledger;
    let id = ledger.communities.len();
    let community = Community {
        governance: g,
        name,
        description,
        authority: ctx.authority,
        member_count: 1,
        proposal_count: 0,
        creation_time: now,
        is_active: true,
    };
    ledger.communities.push(community);
    let membership = Membership {
        community: id,
        user: ctx.authority,
        role: Role::Admin,
        voting_power: ADMIN_VOTING_POWER,
        join_time: now,
        reputation_score: ADMIN_REPUTATION,
        is_active: true,
    };
    ledger.memberships.push(membership);
    ledger.governances[g].total_communities = total;
    proof {
        let og = o.governances@[g as int];
        assert(ledger.governances@ =~= o.governances@.update(
            g as int,
            GovernanceConfig { total_communities: (og.total_communities + 1) as u64, ..og },
        ));
        assert forall|i: int, j: int|
            0 <= i < ledger.governances@.len() && 0 <= j < ledger.governances@.len() && i != j
                implies #[trigger] ledger.governances@[i].authority
                != #[trigger] ledger.governances@[j].authority by {
            assert(o.governances@[i].authority != o.governances@[j].authority);
        }
        assert forall|gi: int| 0 <= gi < ledger.governances@.len() implies
            #[trigger] ledger.governances@[gi].total_communities == count_where(
                ledger.communities@,
                community_under(gi),
            ) by {
            assert(o.governances@[gi].total_communities == count_where(
                o.communities@,
                community_under(gi),
            ));
            lemma_count_push(o.communities@, community, community_under(gi));
        }
        assert forall|gi: int| 0 <= gi < ledger.governances@.len() implies
            #[trigger] ledger.governances@[gi].proposal_count == count_where(
                ledger.proposals@,
                proposal_under(gi),
            ) by {
            assert(o.governances@[gi].proposal_count == count_where(
                o.proposals@,
                proposal_under(gi),
            ));
        }
        assert forall|k: int| 0 <= k < o.memberships@.len() implies !(#[trigger] membership_in(
            id as int,
        )(o.memberships@[k])) by {
            assert(o.memberships@[k].community < id);
        }
        lemma_count_none(o.memberships@, membership_in(id as int));
        assert forall|k: int| 0 <= k < o.proposals@.len() implies !(#[trigger] proposal_in(
            id as int,
        )(o.proposals@[k])) by {
            assert(o.proposals@[k].community < id);
        }
        lemma_count_none(o.proposals@, proposal_in(id as int));
        assert forall|k: int| 0 <= k < ledger.communities@.len() implies
            #[trigger] ledger.communities@[k].member_count == count_where(
                ledger.memberships@,
                membership_in(k),
            ) by {
            lemma_count_push(o.memberships@, membership, membership_in(k));
            if k < id as int {
                assert(o.communities@[k].member_count == count_where(
                    o.memberships@,
                    membership_in(k),
                ));
            }
        }
        assert forall|k: int| 0 <= k < ledger.communities@.len() implies
            #[trigger] ledger.communities@[k].proposal_count == count_where(
                ledger.proposals@,
                proposal_in(k),
            ) by {
            if k < id as int {
                assert(o.communities@[k].proposal_count == count_where(
                    o.proposals@,
                    proposal_in(k),
                ));
            }
        }
        assert forall|i: int, j: int|
            0 <= i < ledger.communities@.len() && 0 <= j < ledger.communities@.len() && i != j
                && #[trigger] ledger.communities@[i].governance
                == #[trigger] ledger.communities@[j].governance implies ledger.communities@[i].name@
                != ledger.communities@[j].name@ by {
            if i == id as int {
                assert(!(o.communities@[j].governance == g && o.communities@[j].name@ == community.name@));
            }
            if j == id as int {
                assert(!(o.communities@[i].governance == g && o.communities@[i].name@ == community.name@));
            }
        }
        assert forall|i: int, j: int|
            0 <= i < ledger.memberships@.len() && 0 <= j < ledger.memberships@.len() && i != j
                && #[trigger] ledger.memberships@[i].community
                == #[trigger] ledger.memberships@[j].community implies ledger.memberships@[i].user
                != ledger.memberships@[j].user by {
            if i == o.memberships@.len() {
                assert(o.memberships@[j].community < id);
            }
            if j == o.memberships@.len() {
                assert(o.memberships@[i].community < id);
            }
        }
        assert forall|k: int| 0 <= k < ledger.proposals@.len() implies #[trigger] ledger.proposals@[
            k
        ].community < ledger.communities@.len() && ledger.proposals@[k].governance
            == ledger.communities@[ledger.proposals@[k].community as int].governance by {
            assert(o.proposals@[k].community < o.communities@.len());
        }
        assert(ledger.governances_wf());
        assert(ledger.communities_wf());
        assert(ledger.memberships_wf());
        assert(ledger.proposals_wf());
        assert(ledger.strategies_wf());
    }
    Ok(id)
}

/// Why a join would be refused, in the order the checks are made; `None`
/// when it is accepted.
pub open spec fn join_community_error(l: Ledger, ctx: JoinCommunity) -> Option<GovernanceError> {
    if ctx.community >= l.communities@.len() {
        Some(GovernanceError::NotFound)
    } else {
        let c = l.communities@[ctx.community as int];
        if !c.is_active {
            Some(GovernanceError::NotActive)
        } else if has_membership(l.memberships@, ctx.community, ctx.user) {
            Some(GovernanceError::AlreadyExists)
        } else if c.member_count + 1 > u64::MAX {
            Some(GovernanceError::MathOverflow)
        } else if !deltas_fit(
            current_reputation(l.reputations@, c.governance, ctx.user),
            0,
            JOIN_PARTICIPATION,
            0,
        ) {
            Some(GovernanceError::MathOverflow)
        } else {
            None
        }
    }
}

/// `new` is `old` after `ctx.user` joined `ctx.community`: the membership is
/// appended, the community counts one more member, and the user's score
/// under the community's root gains participation points (the record is
/// created on the user's first write).
pub open spec fn member_joined(old: Ledger, new: Ledger, ctx: JoinCommunity, now: i64, id: usize) -> bool {
    let c = old.communities@[ctx.community as int];
    &&& id == old.memberships@.len()
    &&& new.memberships@ == old.memberships@.push(
        Membership {
            community: ctx.community,
            user: ctx.user,
            role: Role::Member,
            voting_power: MEMBER_VOTING_POWER,
            join_time: now,
            reputation_score: MEMBER_REPUTATION,
            is_active: true,
        },
    )
    &&& new.communities@ == old.communities@.update(
        ctx.community as int,
        Community { member_count: (c.member_count + 1) as u64, ..c },
    )
    &&& new.reputations@ == reputation_after(
        old.reputations@,
        c.governance,
        ctx.user,
        0,
        JOIN_PARTICIPATION,
        0,
        now,
    )
    &&& new.governances@ == old.governances@
    &&& new.proposals@ == old.proposals@
    &&& new.votes@ == old.votes@
    &&& new.rewards@ == old.rewards@
    &&& new.factions@ == old.factions@
    &&& new.faction_memberships@ == old.faction_memberships@
    &&& new.strategies@ == old.strategies@
}

/// Adds `ctx.user` to an active community as a member and returns the
/// membership's index. On failure nothing changes.
pub fn join_community(ledger: &mut Ledger, ctx: JoinCommunity, now: i64) -> (r: Result<
    usize,
    GovernanceError,
>)
    requires
        old(ledger).wf(),
    ensures
        final(ledger).wf(),
        match r {
            Ok(id) => join_community_error(*old(ledger), ctx) is None && member_joined(
                *old(ledger),
                *final(ledger),
                ctx,
                now,
                id,
            ),
            Err(e) => join_community_error(*old(ledger), ctx) == Some(e) && *final(ledger)
                == *old(ledger),
        },
{
    let ci = ctx.community;
    if ci >= ledger.communities.len() {
        return Err(GovernanceError::NotFound);
    }
    if !ledger.communities[ci].is_active {
        return Err(GovernanceError::NotActive);
    }
    if let Some(_) = ledger.find_membership(ci, ctx.user) {
        return Err(GovernanceError::AlreadyExists);
    }
    let count = match ledger.communities[ci].member_count.checked_add(1) {
        Some(v) => v,
        None => return Err(GovernanceError::MathOverflow),
    };
    let g = ledger.communities[ci].governance;
    if !reputation_delta_fits(
        &ledger.reputations,
        g,
        ctx.user,
        0,
        JOIN_PARTICIPATION,
        0,
        Ghost(ledger.governances@.len()),
    ) {
        return Err(GovernanceError::MathOverflow);
    }
    let ghost o = *ledger;
    apply_reputation_delta(
        &mut ledger.reputations,
        g,
        ctx.user,
        0,
        JOIN_PARTICIPATION,
        0,
        now,
        Ghost(ledger.governances@.len()),
    );
    let id = ledger.memberships.len();
    let membership = Membership {
        community: ci,
        user: ctx.user,
        role: Role::Member,
        voting_power: MEMBER_VOTING_POWER,
        join_time: now,
        reputation_score: MEMBER_REPUTATION,
        is_active: true,
    };
    ledger.memberships.push(membership);
    ledger.communities[ci].member_count = count;
    proof {
        let oc = o.communities@[ci as int];
        assert(ledger.communities@ =~= o.communities@.update(
            ci as int,
            Community { member_count: (oc.member_count + 1) as u64, ..oc },
        ));
        assert forall|gi: int| 0 <= gi < ledger.governances@.len() implies
            #[trigger] ledger.governances@[gi].total_communities == count_where(
                ledger.communities@,
                community_under(gi),
            ) by {
            lemma_count_update(
                o.communities@,
                ci as int,
                ledger.communities@[ci as int],
                community_under(gi),
            );
            assert(o.governances@[gi].total_communities == count_where(
                o.communities@,
                community_under(gi),
            ));
        }
        assert forall|k: int| 0 <= k < ledger.communities@.len() implies
            #[trigger] ledger.communities@[k].member_count == count_where(
                ledger.memberships@,
                membership_in(k),
            ) by {
            lemma_count_push(o.memberships@, membership, membership_in(k));
            assert(o.communities@[k].member_count == count_where(
                o.memberships@,
                membership_in(k),
            ));
        }
        assert forall|k: int| 0 <= k < ledger.communities@.len() implies
            #[trigger] ledger.communities@[k].proposal_count == count_where(
                ledger.proposals@,
                proposal_in(k),
            ) by {
            assert(o.communities@[k].proposal_count == count_where(o.proposals@, proposal_in(k)));
        }
        assert forall|i: int, j: int|
            0 <= i < ledger.communities@.len() && 0 <= j < ledger.communities@.len() && i != j
                && #[trigger] ledger.communities@[i].governance
                == #[trigger] ledger.communities@[j].governance implies ledger.communities@[i].name@
                != ledger.communities@[j].name@ by {
            assert(o.communities@[i].name@ != o.communities@[j].name@);
        }
        assert forall|i: int, j: int|
            0 <= i < ledger.memberships@.len() && 0 <= j < ledger.memberships@.len() && i != j
                && #[trigger] ledger.memberships@[i].community
                == #[trigger] ledger.memberships@[j].community implies ledger.memberships@[i].user
                != ledger.memberships@[j].user by {
            if i == id as int {
                assert(!membership_at(o.memberships@, j, ci, ctx.user));
            }
            if j == id as int {
                assert(!membership_at(o.memberships@, i, ci, ctx.user));
            }
        }
        assert forall|k: int| 0 <= k < ledger.proposals@.len() implies #[trigger] ledger.proposals@[
            k
        ].community < ledger.communities@.len() && ledger.proposals@[k].governance
            == ledger.communities@[ledger.proposals@[k].community as int].governance by {
            assert(o.proposals@[k].community < o.communities@.len());
        }
        assert(ledger.governances_wf());
        assert(ledger.communities_wf());
        assert(ledger.memberships_wf());
        assert(ledger.proposals_wf());
    }
    Ok(id)
}

} // verus!
