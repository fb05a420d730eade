use vstd::prelude::*;
use crate::accounting::{count_where, lemma_count_none, lemma_count_push};
use crate::ledger::{faction_membership_in, has_faction_membership, has_faction_named, Ledger};
use crate::types::{Address, FactionMembership, GovernanceError, StrategicFaction};

verus! {

/// The governance root a faction is created under, and its founder.
#[derive(Clone, Copy, Debug, PartialEq, Eq, Structural)]
pub struct CreateFaction {
    pub governance: usize,
    pub authority: Address,
}

/// The faction joined, and the joining user.
#[derive(Clone, Copy, Debug, PartialEq, Eq, Structural)]
pub struct JoinFaction {
    pub faction: usize,
    pub user: Address,
}

/// Why a faction would be refused; `None` when it is accepted.
pub open spec fn create_faction_error(l: Ledger, ctx: CreateFaction, name: Seq<char>) -> Option<
    GovernanceError,
> {
    if ctx.governance >= l.governances@.len() {
        Some(GovernanceError::NotFound)
    } else if !l.governances@[ctx.governance as int].is_active {
        Some(GovernanceError::NotActive)
    } else if has_faction_named(l.factions@, ctx.governance, name) {
        Some(GovernanceError::AlreadyExists)
    } else {
        None
    }
}

/// `new` is `old` after faction `id` was created with its founder as first
/// member.
pub open spec fn faction_created(
    old: Ledger,
    new: Ledger,
    ctx: CreateFaction,
    name: String,
    description: String,
    investment_strategy: String,
    now: i64,
    id: usize,
) -> bool {
    &&& id == old.factions@.len()
    &&& new.factions@ == old.factions@.push(
        StrategicFaction {
            governance: ctx.governance,
            name,
            description,
            founder: ctx.authority,
            member_count: 1,
            creation_time: now,
            investment_strategy,
            is_active: true,
        },
    )
    &&& new.faction_memberships@ == old.faction_memberships@.push(
        FactionMembership { faction: id, user: ctx.authority, join_time: now, is_active: true },
    )
    &&& new.governances@ == old.governances@
    &&& new.communities@ == old.communities@
    &&& new.memberships@ == old.memberships@
    &&& new.proposals@ == old.proposals@
    &&& new.votes@ == old.votes@
    &&& new.reputations@ == old.reputations@
    &&& new.rewards@ == old.rewards@
    &&& new.strategies@ == old.strategies@
}

/// Creates a faction under an active governance root, with its founder as
/// first member, and returns its index. Names are unique under a root. On
/// failure nothing changes.
pub fn create_faction(
    ledger: &mut Ledger,
    ctx: CreateFaction,
    name: String,
    description: String,
    investment_strategy: String,
    now: i64,
) -> (r: Result<usize, GovernanceError>)
    requires
        old(ledger).wf(),
    ensures
        final(ledger).wf(),
        match r {
            Ok(id) => create_faction_error(*old(ledger), ctx, name@) is None && faction_created(
                *old(ledger),
                *final(ledger),
                ctx,
                name,
                description,
                investment_strategy,
                now,
                id,
            ),
            Err(e) => create_faction_error(*old(ledger), ctx, name@) == Some(e) && *final(ledger)
                == *old(ledger),
        },
{
    let g = ctx.governance;
    if g >= ledger.governances.len() {
        return Err(GovernanceError::NotFound);
    }
    if !ledger.governances[g].is_active {
        return Err(GovernanceError::NotActive);
    }
    if ledger.has_faction_named(g, &name) {
        return Err(GovernanceError::AlreadyExists);
    }
    let ghost o = *ledger;
    let id = ledger.factions.len();
    let faction = StrategicFaction {
        governance: g,
        name,
        description,
        founder: ctx.authority,
        member_count: 1,
        creation_time: now,
        investment_strategy,
        is_active: true,
    };
    ledger.factions.push(faction);
    let membership = FactionMembership {
        faction: id,
        user: ctx.authority,
        join_time: now,
        is_active: true,
    };
    ledger.faction_memberships.push(membership);
    proof {
        let om = o.faction_memberships@;
        assert forall|k: int| 0 <= k < om.len() implies !(#[trigger] faction_membership_in(
            id as int,
        )(om[k])) by {
            assert(om[k].faction < id);
        }
        lemma_count_none(om, faction_membership_in(id as int));
        assert forall|f: int| 0 <= f < ledger.factions@.len() implies
            #[trigger] ledger.factions@[f].member_count == count_where(
                ledger.faction_memberships@,
                faction_membership_in(f),
            ) by {
            lemma_count_push(om, membership, faction_membership_in(f));
            if f < id as int {
                assert(o.factions@[f].member_count == count_where(om, faction_membership_in(f)));
            }
        }
        assert forall|i: int, j: int|
            0 <= i < ledger.factions@.len() && 0 <= j < ledger.factions@.len() && i != j
                && #[trigger] ledger.factions@[i].governance
                == #[trigger] ledger.factions@[j].governance implies ledger.factions@[i].name@
                != ledger.factions@[j].name@ by {
            if i == id as int {
                assert(!(o.factions@[j].governance == g && o.factions@[j].name@ == faction.name@));
            }
            if j == id as int {
                assert(!(o.factions@[i].governance == g && o.factions@[i].name@ == faction.name@));
            }
        }
        assert forall|i: int, j: int|
            0 <= i < ledger.faction_memberships@.len() && 0 <= j < ledger.faction_memberships@.len()
                && i != j && #[trigger] ledger.faction_memberships@[i].faction
                == #[trigger] ledger.faction_memberships@[j].faction implies
            ledger.faction_memberships@[i].user != ledger.faction_memberships@[j].user by {
            if i == om.len() {
                assert(om[j].faction < id);
            }
            if j == om.len() {
                assert(om[i].faction < id);
            }
        }
        assert(ledger.factions_wf());
    }
    Ok(id)
}

/// Why a faction join would be refused; `None` when it is accepted.
pub open spec fn join_faction_error(l: Ledger, ctx: JoinFaction) -> Option<GovernanceError> {
    if ctx.faction >= l.factions@.len() {
        Some(GovernanceError::NotFound)
    } else {
        let f = l.factions@[ctx.faction as int];
        if !f.is_active {
            Some(GovernanceError::NotActive)
        } else if has_faction_membership(l.faction_memberships@, ctx.faction, ctx.user) {
            Some(GovernanceError::AlreadyExists)
        } else if f.member_count + 1 > u64::MAX {
            Some(GovernanceError::MathOverflow)
        } else {
            None
        }
    }
}

/// `new` is `old` after `ctx.user` joined `ctx.faction`.
pub open spec fn faction_joined(old: Ledger, new: Ledger, ctx: JoinFaction, now: i64, id: usize) -> bool {
    let f = old.factions@[ctx.faction as int];
    &&& id == old.faction_memberships@.len()
    &&& new.faction_memberships@ == old.faction_memberships@.push(
        FactionMembership { faction: ctx.faction, user: ctx.user, join_time: now, is_active: true },
    )
    &&& new.factions@ == old.factions@.update(
        ctx.faction as int,
        StrategicFaction { member_count: (f.member_count + 1) as u64, ..f },
    )
    &&& new.governances@ == old.governances@
    &&& new.communities@ == old.communities@
    &&& new.memberships@ == old.memberships@
    &&& new.proposals@ == old.proposals@
    &&& new.votes@ == old.votes@
    &&& new.reputations@ == old.reputations@
    &&& new.rewards@ == old.rewards@
    &&& new.strategies@ == old.strategies@
}

/// Adds `ctx.user` to an active faction and returns the membership's index.
/// On failure nothing changes.
pub fn join_faction(ledger: &mut Ledger, ctx: JoinFaction, now: i64) -> (r: Result<
    usize,
    GovernanceError,
>)
    requires
        old(ledger).wf(),
    ensures
        final(ledger).wf(),
        match r {
            Ok(id) => join_faction_error(*old(ledger), ctx) is None && faction_joined(
                *old(ledger),
                *final(ledger),
                ctx,
                now,
                id,
            ),
            Err(e) => join_faction_error(*old(ledger), ctx) == Some(e) && *final(ledger)
                == *old(ledger),
        },
{
    let fi = ctx.faction;
    if fi >= ledger.factions.len() {
        return Err(GovernanceError::NotFound);
    }
    if !ledger.factions[fi].is_active {
        return Err(GovernanceError::NotActive);
    }
    if ledger.has_faction_membership(fi, ctx.user) {
        return Err(GovernanceError::AlreadyExists);
    }
    let count = match ledger.factions[fi].member_count.checked_add(1) {
        Some(v) => v,
        None => return Err(GovernanceError::MathOverflow),
    };
    let ghost o = *ledger;
    let id = ledger.faction_memberships.len();
    let membership = FactionMembership {
        faction: fi,
        user: ctx.user,
        join_time: now,
        is_active: true,
    };
    ledger.faction_memberships.push(membership);
    ledger.factions[fi].member_count = count;
    proof {
        let of = o.factions@[fi as int];
        let om = o.faction_memberships@;
        assert(ledger.factions@ =~= o.factions@.update(
            fi as int,
            StrategicFaction { member_count: (of.member_count + 1) as u64, ..of },
        ));
        assert forall|f: int| 0 <= f < ledger.factions@.len() implies
            #[trigger] ledger.factions@[f].member_count == count_where(
                ledger.faction_memberships@,
                faction_membership_in(f),
            ) by {
            lemma_count_push(om, membership, faction_membership_in(f));
            assert(o.factions@[f].member_count == count_where(om, faction_membership_in(f)));
        }
        assert forall|i: int, j: int|
            0 <= i < ledger.factions@.len() && 0 <= j < ledger.factions@.len() && i != j
                && #[trigger] ledger.factions@[i].governance
                == #[trigger] ledger.factions@[j].governance implies ledger.factions@[i].name@
                != ledger.factions@[j].name@ by {
            assert(o.factions@[i].name@ != o.factions@[j].name@);
        }
        assert forall|i: int, j: int|
            0 <= i < ledger.faction_memberships@.len() && 0 <= j < ledger.faction_memberships@.len()
                && i != j && #[trigger] ledger.faction_memberships@[i].faction
                == #[trigger] ledger.faction_memberships@[j].faction implies
            ledger.faction_memberships@[i].user != ledger.faction_memberships@[j].user by {
            if i == id as int {
                assert(!(om[j].faction == fi && om[j].user == ctx.user));
            }
            if j == id as int {
                assert(!(om[i].faction == fi && om[i].user == ctx.user));
            }
        }
        assert(ledger.factions_wf());
    }
    Ok(id)
}

} // verus!
