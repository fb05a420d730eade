use vstd::prelude::*;
use crate::accounting::{count_where, lemma_count_update, sum_of, sum_where};
use crate::types::{
    ActivityReward, Address, Community, FactionMembership, GovernanceConfig, InvestmentStrategy,
    Membership, Proposal, ReputationScore, StrategicFaction, Vote, VoteType,
};

verus! {

/// Every record of the system. Each table is append-only: the index of a
/// record is its key for the records that refer to it.
pub struct Ledger {
    pub governances: Vec<GovernanceConfig>,
    pub communities: Vec<Community>,
    pub memberships: Vec<Membership>,
    pub proposals: Vec<Proposal>,
    pub votes: Vec<Vote>,
    pub reputations: Vec<ReputationScore>,
    pub rewards: Vec<ActivityReward>,
    pub factions: Vec<StrategicFaction>,
    pub faction_memberships: Vec<FactionMembership>,
    pub strategies: Vec<InvestmentStrategy>,
}

/// Selects the communities of governance root `g`.
pub open spec fn community_under(g: int) -> spec_fn(Community) -> bool {
    |c: Community| c.governance as int == g
}

/// Selects the proposals raised under governance root `g`.
pub open spec fn proposal_under(g: int) -> spec_fn(Proposal) -> bool {
    |p: Proposal| p.governance as int == g
}

/// Selects the proposals of community `c`.
pub open spec fn proposal_in(c: int) -> spec_fn(Proposal) -> bool {
    |p: Proposal| p.community as int == c
}

/// Selects the memberships of community `c`.
pub open spec fn membership_in(c: int) -> spec_fn(Membership) -> bool {
    |m: Membership| m.community as int == c
}

/// Selects the memberships of faction `f`.
pub open spec fn faction_membership_in(f: int) -> spec_fn(FactionMembership) -> bool {
    |m: FactionMembership| m.faction as int == f
}

/// Selects the votes on proposal `p`.
pub open spec fn vote_on(p: int) -> spec_fn(Vote) -> bool {
    |v: Vote| v.proposal as int == p
}

/// Selects the votes of type `t` on proposal `p`.
pub open spec fn vote_of_type(p: int, t: VoteType) -> spec_fn(Vote) -> bool {
    |v: Vote| v.proposal as int == p && v.vote_type == t
}

/// The voting power a vote carries.
pub open spec fn vote_weight() -> spec_fn(Vote) -> nat {
    |v: Vote| v.voting_power as nat
}

/// Voting power of the recorded votes of type `t` on proposal `p`.
pub open spec fn tally(votes: Seq<Vote>, p: int, t: VoteType) -> nat {
    sum_where(votes, vote_of_type(p, t), vote_weight())
}

/// Voting power of all recorded votes on proposal `p`.
pub open spec fn votes_cast(votes: Seq<Vote>, p: int) -> nat {
    sum_where(votes, vote_on(p), vote_weight())
}

/// The total of a score record is the sum of its three components.
pub open spec fn score_consistent(r: ReputationScore) -> bool {
    r.total_score == r.investment_score + r.participation_score + r.contribution_score
}

/// A valid allocation: risk level in 1..=5, one percentage per target, and
/// percentages summing to exactly 100.
pub open spec fn valid_allocation(risk_level: u8, targets: Seq<Address>, allocations: Seq<u8>) -> bool {
    &&& 1 <= risk_level <= 5
    &&& targets.len() == allocations.len()
    &&& sum_of(allocations) == 100
}

/// `authority` already has a governance root.
pub open spec fn has_governance(s: Seq<GovernanceConfig>, authority: Address) -> bool {
    exists|i: int| 0 <= i < s.len() && (#[trigger] s[i]).authority == authority
}

/// Root `g` already has a community called `name`.
pub open spec fn has_community_named(s: Seq<Community>, g: usize, name: Seq<char>) -> bool {
    exists|i: int| 0 <= i < s.len() && (#[trigger] s[i]).governance == g && s[i].name@ == name
}

/// Entry `i` is the membership of `user` in community `c`.
pub open spec fn membership_at(s: Seq<Membership>, i: int, c: usize, user: Address) -> bool {
    0 <= i < s.len() && s[i].community == c && s[i].user == user
}

/// `user` has a membership in community `c`, active or not.
pub open spec fn has_membership(s: Seq<Membership>, c: usize, user: Address) -> bool {
    exists|i: int| #[trigger] membership_at(s, i, c, user)
}

/// The membership of `user` in community `c` (meaningful when one exists).
pub open spec fn membership_of(s: Seq<Membership>, c: usize, user: Address) -> Membership {
    s[choose|i: int| membership_at(s, i, c, user)]
}

/// `user` holds an active membership in community `c`.
pub open spec fn is_active_member(s: Seq<Membership>, c: usize, user: Address) -> bool {
    has_membership(s, c, user) && membership_of(s, c, user).is_active
}

/// `voter` has a recorded vote on proposal `p`.
pub open spec fn has_vote(s: Seq<Vote>, p: usize, voter: Address) -> bool {
    exists|i: int| 0 <= i < s.len() && (#[trigger] s[i]).proposal == p && s[i].voter == voter
}

/// Entry `i` is the score record of `user` under root `g`.
pub open spec fn reputation_at(s: Seq<ReputationScore>, i: int, g: usize, user: Address) -> bool {
    0 <= i < s.len() && s[i].governance == g && s[i].user == user
}

/// `user` has a score record under root `g`.
pub open spec fn has_reputation(s: Seq<ReputationScore>, g: usize, user: Address) -> bool {
    exists|i: int| #[trigger] reputation_at(s, i, g, user)
}

/// Every score record points at an existing governance root, keeps its
/// total equal to the sum of its components, and is the only one for its
/// (governance root, user) pair.
pub open spec fn reputations_valid(s: Seq<ReputationScore>, governance_count: nat) -> bool {
    &&& forall|i: int|
        0 <= i < s.len() ==> #[trigger] s[i].governance < governance_count && score_consistent(s[i])
    &&& forall|i: int, j: int|
        0 <= i < s.len() && 0 <= j < s.len() && i != j && #[trigger] s[i].governance
            == #[trigger] s[j].governance ==> s[i].user != s[j].user
}

/// Root `g` already has a faction called `name`.
pub open spec fn has_faction_named(s: Seq<StrategicFaction>, g: usize, name: Seq<char>) -> bool {
    exists|i: int| 0 <= i < s.len() && (#[trigger] s[i]).governance == g && s[i].name@ == name
}

/// `user` is already a member of faction `f`.
pub open spec fn has_faction_membership(s: Seq<FactionMembership>, f: usize, user: Address) -> bool {
    exists|i: int| 0 <= i < s.len() && (#[trigger] s[i]).faction == f && s[i].user == user
}

/// Community `c` already has a strategy called `name`.
pub open spec fn has_strategy_named(s: Seq<InvestmentStrategy>, c: usize, name: Seq<char>) -> bool {
    exists|i: int| 0 <= i < s.len() && (#[trigger] s[i]).community == c && s[i].name@ == name
}

impl Ledger {
    /// One root per authority; each root counts its communities and proposals.
    pub open spec fn governances_wf(&self) -> bool {
        let s = self.governances@;
        &&& forall|i: int, j: int|
            0 <= i < s.len() && 0 <= j < s.len() && i != j ==> #[trigger] s[i].authority
                != #[trigger] s[j].authority
        &&& forall|g: int|
            0 <= g < s.len() ==> #[trigger] s[g].total_communities == count_where(
                self.communities@,
                community_under(g),
            )
        &&& forall|g: int|
            0 <= g < s.len() ==> #[trigger] s[g].proposal_count == count_where(
                self.proposals@,
                proposal_under(g),
            )
    }

    /// Communities belong to a root, have unique names under it, and count
    /// their memberships and proposals.
    pub open spec fn communities_wf(&self) -> bool {
        let s = self.communities@;
        &&& forall|i: int| 0 <= i < s.len() ==> #[trigger] s[i].governance < self.governances@.len()
        &&& forall|i: int, j: int|
            0 <= i < s.len() && 0 <= j < s.len() && i != j && #[trigger] s[i].governance
                == #[trigger] s[j].governance ==> s[i].name@ != s[j].name@
        &&& forall|c: int|
            0 <= c < s.len() ==> #[trigger] s[c].member_count == count_where(
                self.memberships@,
                membership_in(c),
            )
        &&& forall|c: int|
            0 <= c < s.len() ==> #[trigger] s[c].proposal_count == count_where(
                self.proposals@,
                proposal_in(c),
            )
    }

    /// Memberships belong to a community; one per (community, user).
    pub open spec fn memberships_wf(&self) -> bool {
        let s = self.memberships@;
        &&& forall|i: int| 0 <= i < s.len() ==> #[trigger] s[i].community < self.communities@.len()
        &&& forall|i: int, j: int|
            0 <= i < s.len() && 0 <= j < s.len() && i != j && #[trigger] s[i].community
                == #[trigger] s[j].community ==> s[i].user != s[j].user
    }

    /// Proposals belong to a community of their root, and each tally equals
    /// the voting power of the recorded votes of that type.
    pub open spec fn proposals_wf(&self) -> bool {
        let s = self.proposals@;
        &&& forall|i: int|
            0 <= i < s.len() ==> {
                &&& #[trigger] s[i].community < self.communities@.len()
                &&& s[i].governance == self.communities@[s[i].community as int].governance
                &&& s[i].for_votes == tally(self.votes@, i, VoteType::For)
                &&& s[i].against_votes == tally(self.votes@, i, VoteType::Against)
                &&& s[i].abstain_votes == tally(self.votes@, i, VoteType::Abstain)
            }
    }

    /// Votes refer to a proposal; one per (proposal, voter).
    pub open spec fn votes_wf(&self) -> bool {
        let s = self.votes@;
        &&& forall|i: int| 0 <= i < s.len() ==> #[trigger] s[i].proposal < self.proposals@.len()
        &&& forall|i: int, j: int|
            0 <= i < s.len() && 0 <= j < s.len() && i != j && #[trigger] s[i].proposal
                == #[trigger] s[j].proposal ==> s[i].voter != s[j].voter
    }

    /// See `reputations_valid`.
    pub open spec fn reputations_wf(&self) -> bool {
        reputations_valid(self.reputations@, self.governances@.len())
    }

    /// Rewards refer to a governance root.
    pub open spec fn rewards_wf(&self) -> bool {
        forall|i: int|
            0 <= i < self.rewards@.len() ==> #[trigger] self.rewards@[i].governance
                < self.governances@.len()
    }

    /// Factions belong to a root with unique names under it and count their
    /// memberships; one faction membership per (faction, user).
    pub open spec fn factions_wf(&self) -> bool {
        let s = self.factions@;
        let m = self.faction_memberships@;
        &&& forall|i: int| 0 <= i < s.len() ==> #[trigger] s[i].governance < self.governances@.len()
        &&& forall|i: int, j: int|
            0 <= i < s.len() && 0 <= j < s.len() && i != j && #[trigger] s[i].governance
                == #[trigger] s[j].governance ==> s[i].name@ != s[j].name@
        &&& forall|f: int|
            0 <= f < s.len() ==> #[trigger] s[f].member_count == count_where(
                m,
                faction_membership_in(f),
            )
        &&& forall|i: int| 0 <= i < m.len() ==> #[trigger] m[i].faction < s.len()
        &&& forall|i: int, j: int|
            0 <= i < m.len() && 0 <= j < m.len() && i != j && #[trigger] m[i].faction
                == #[trigger] m[j].faction ==> m[i].user != m[j].user
    }

    /// Strategies belong to a community, have unique names in it, and hold a
    /// valid allocation.
    pub open spec fn strategies_wf(&self) -> bool {
        let s = self.strategies@;
        &&& forall|i: int|
            0 <= i < s.len() ==> #[trigger] s[i].community < self.communities@.len()
                && valid_allocation(
                s[i].risk_level,
                s[i].target_collections@,
                s[i].allocation_percentages@,
            )
        &&& forall|i: int, j: int|
            0 <= i < s.len() && 0 <= j < s.len() && i != j && #[trigger] s[i].community
                == #[trigger] s[j].community ==> s[i].name@ != s[j].name@
    }

    /// The ledger's invariant: keys are unique, references point at existing
    /// records, every counter equals the number of records created under it,
    /// every proposal's tallies equal the voting power of its recorded votes,
    /// and every reputation total is the sum of its components.
    pub open spec fn wf(&self) -> bool {
        &&& self.governances_wf()
        &&& self.communities_wf()
        &&& self.memberships_wf()
        &&& self.proposals_wf()
        &&& self.votes_wf()
        &&& self.reputations_wf()
        &&& self.rewards_wf()
        &&& self.factions_wf()
        &&& self.strategies_wf()
    }

    /// Memberships being unique, the one found at `i` is the one the spec
    /// functions name.
    pub proof fn lemma_membership_of(&self, i: int, c: usize, user: Address)
        requires
            self.memberships_wf(),
            membership_at(self.memberships@, i, c, user),
        ensures
            membership_of(self.memberships@, c, user) == self.memberships@[i],
            has_membership(self.memberships@, c, user),
    {
        let j = choose|j: int| membership_at(self.memberships@, j, c, user);
        assert(membership_at(self.memberships@, j, c, user));
    }

    /// Rewriting one proposal without touching its keys or tallies, and the
    /// score table in a valid way, keeps the ledger well formed.
    pub proof fn lemma_proposal_rewritten(old: Ledger, new: Ledger, i: int, q: Proposal)
        requires
            old.wf(),
            0 <= i < old.proposals@.len(),
            q.governance == old.proposals@[i].governance,
            q.community == old.proposals@[i].community,
            q.for_votes == old.proposals@[i].for_votes,
            q.against_votes == old.proposals@[i].against_votes,
            q.abstain_votes == old.proposals@[i].abstain_votes,
            new.proposals@ == old.proposals@.update(i, q),
            new.governances@ == old.governances@,
            new.communities@ == old.communities@,
            new.memberships@ == old.memberships@,
            new.votes@ == old.votes@,
            new.rewards@ == old.rewards@,
            new.factions@ == old.factions@,
            new.faction_memberships@ == old.faction_memberships@,
            new.strategies@ == old.strategies@,
            reputations_valid(new.reputations@, new.governances@.len()),
        ensures
            new.wf(),
    {
        assert forall|g: int| 0 <= g < new.governances@.len() implies
            #[trigger] new.governances@[g].proposal_count == count_where(
                new.proposals@,
                proposal_under(g),
            ) by {
            lemma_count_update(old.proposals@, i, q, proposal_under(g));
        }
        assert forall|c: int| 0 <= c < new.communities@.len() implies
            #[trigger] new.communities@[c].proposal_count == count_where(
                new.proposals@,
                proposal_in(c),
            ) by {
            lemma_count_update(old.proposals@, i, q, proposal_in(c));
        }
        assert forall|k: int| 0 <= k < new.proposals@.len() implies #[trigger] new.proposals@[k].community
            < new.communities@.len() by {
            assert(old.proposals@[k].community < old.communities@.len());
        }
    }

    pub fn new() -> (r: Ledger)
        ensures
            r.wf(),
            r.governances@.len() == 0,
            r.communities@.len() == 0,
            r.memberships@.len() == 0,
            r.proposals@.len() == 0,
            r.votes@.len() == 0,
            r.reputations@.len() == 0,
            r.rewards@.len() == 0,
            r.factions@.len() == 0,
            r.faction_memberships@.len() == 0,
            r.strategies@.len() == 0,
    {
        Ledger {
            governances: Vec::new(),
            communities: Vec::new(),
            memberships: Vec::new(),
            proposals: Vec::new(),
            votes: Vec::new(),
            reputations: Vec::new(),
            rewards: Vec::new(),
            factions: Vec::new(),
            faction_memberships: Vec::new(),
            strategies: Vec::new(),
        }
    }
    pub fn find_governance(&self, authority: Address) -> (r: Option<usize>)
        ensures
            match r {
                Some(i) => i < self.governances@.len() && self.governances@[i as int].authority
                    == authority,
                None => !has_governance(self.governances@, authority),
            },
    {
        let mut i: usize = 0;
        while i < self.governances.len()
            invariant
                i <= self.governances@.len(),
                forall|k: int| 0 <= k < i ==> (#[trigger] self.governances@[k]).authority != authority,
            decreases self.governances@.len() - i,
        {
            if self.governances[i].authority == authority {
                return Some(i);
            }
            i = i + 1;
        }
        None
    }

    pub fn has_community_named(&self, g: usize, name: &String) -> (r: bool)
        ensures
            r == has_community_named(self.communities@, g, name@),
    {
        let mut i: usize = 0;
        while i < self.communities.len()
            invariant
                i <= self.communities@.len(),
                forall|k: int|
                    0 <= k < i ==> !((#[trigger] self.communities@[k]).governance == g
                        && self.communities@[k].name@ == name@),
            decreases self.communities@.len() - i,
        {
            if self.communities[i].governance == g && self.communities[i].name == *name {
                return true;
            }
            i = i + 1;
        }
        false
    }

    pub fn find_membership(&self, c: usize, user: Address) -> (r: Option<usize>)
        ensures
            match r {
                Some(i) => membership_at(self.memberships@, i as int, c, user),
                None => !has_membership(self.memberships@, c, user),
            },
    {
        let mut i: usize = 0;
        while i < self.memberships.len()
            invariant
                i <= self.memberships@.len(),
                forall|k: int| 0 <= k < i ==> !#[trigger] membership_at(self.memberships@, k, c, user),
            decreases self.memberships@.len() - i,
        {
            if self.memberships[i].community == c && self.memberships[i].user == user {
                return Some(i);
            }
            i = i + 1;
        }
        None
    }

    pub fn has_vote(&self, p: usize, voter: Address) -> (r: bool)
        ensures
            r == has_vote(self.votes@, p, voter),
    {
        let mut i: usize = 0;
        while i < self.votes.len()
            invariant
                i <= self.votes@.len(),
                forall|k: int|
                    0 <= k < i ==> !((#[trigger] self.votes@[k]).proposal == p
                        && self.votes@[k].voter == voter),
            decreases self.votes@.len() - i,
        {
            if self.votes[i].proposal == p && self.votes[i].voter == voter {
                return true;
            }
            i = i + 1;
        }
        false
    }

    pub fn has_faction_named(&self, g: usize, name: &String) -> (r: bool)
        ensures
            r == has_faction_named(self.factions@, g, name@),
    {
        let mut i: usize = 0;
        while i < self.factions.len()
            invariant
                i <= self.factions@.len(),
                forall|k: int|
                    0 <= k < i ==> !((#[trigger] self.factions@[k]).governance == g
                        && self.factions@[k].name@ == name@),
            decreases self.factions@.len() - i,
        {
            if self.factions[i].governance == g && self.factions[i].name == *name {
                return true;
            }
            i = i + 1;
        }
        false
    }

    pub fn has_faction_membership(&self, f: usize, user: Address) -> (r: bool)
        ensures
            r == has_faction_membership(self.faction_memberships@, f, user),
    {
        let mut i: usize = 0;
        while i < self.faction_memberships.len()
            invariant
                i <= self.faction_memberships@.len(),
                forall|k: int|
                    0 <= k < i ==> !((#[trigger] self.faction_memberships@[k]).faction == f
                        && self.faction_memberships@[k].user == user),
            decreases self.faction_memberships@.len() - i,
        {
            if self.faction_memberships[i].faction == f && self.faction_memberships[i].user == user {
                return true;
            }
            i = i + 1;
        }
        false
    }

    pub fn has_strategy_named(&self, c: usize, name: &String) -> (r: bool)
        ensures
            r == has_strategy_named(self.strategies@, c, name@),
    {
        let mut i: usize = 0;
        while i < self.strategies.len()
            invariant
                i <= self.strategies@.len(),
                forall|k: int|
                    0 <= k < i ==> !((#[trigger] self.strategies@[k]).community == c
                        && self.strategies@[k].name@ == name@),
            decreases self.strategies@.len() - i,
        {
            if self.strategies[i].community == c && self.strategies[i].name == *name {
                return true;
            }
            i = i + 1;
        }
        false
    }
}

} // verus!
