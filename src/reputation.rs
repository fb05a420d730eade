use vstd::prelude::*;
use crate::ledger::{has_reputation, Ledger, reputation_at, reputations_valid, score_consistent};
use crate::types::{Address, GovernanceError, ReputationScore};

verus! {

/// The record a (governance root, user) pair starts from before its first
/// write: every score zero.
pub open spec fn fresh_reputation(g: usize, user: Address) -> ReputationScore {
    ReputationScore {
        user,
        governance: g,
        investment_score: 0,
        participation_score: 0,
        contribution_score: 0,
        total_score: 0,
        last_updated: 0,
    }
}

/// The score record of `user` under root `g`, or the fresh record if there
/// is none yet.
pub open spec fn current_reputation(s: Seq<ReputationScore>, g: usize, user: Address) -> ReputationScore {
    if has_reputation(s, g, user) {
        s[choose|i: int| reputation_at(s, i, g, user)]
    } else {
        fresh_reputation(g, user)
    }
}

/// Adding the three deltas overflows neither a component nor the total.
pub open spec fn deltas_fit(r: ReputationScore, investment: u64, participation: u64, contribution: u64) -> bool {
    &&& r.investment_score + investment <= u64::MAX
    &&& r.participation_score + participation <= u64::MAX
    &&& r.contribution_score + contribution <= u64::MAX
    &&& r.investment_score + investment + r.participation_score + participation
        + r.contribution_score + contribution <= u64::MAX
}

/// `r` with the deltas added, the total recomputed and the time stamped.
pub open spec fn with_deltas(
    r: ReputationScore,
    investment: u64,
    participation: u64,
    contribution: u64,
    now: i64,
) -> ReputationScore {
    ReputationScore {
        user: r.user,
        governance: r.governance,
        investment_score: (r.investment_score + investment) as u64,
        participation_score: (r.participation_score + participation) as u64,
        contribution_score: (r.contribution_score + contribution) as u64,
        total_score: (r.investment_score + investment + r.participation_score + participation
            + r.contribution_score + contribution) as u64,
        last_updated: now,
    }
}

/// The table with the record of (g, user) replaced by `rec`, or `rec`
/// appended if the pair has no record yet.
pub open spec fn put_reputation(
    s: Seq<ReputationScore>,
    g: usize,
    user: Address,
    rec: ReputationScore,
) -> Seq<ReputationScore> {
    if has_reputation(s, g, user) {
        s.update(choose|i: int| reputation_at(s, i, g, user), rec)
    } else {
        s.push(rec)
    }
}

/// The score table after a participation event of `user` under `g`.
pub open spec fn reputation_after(
    s: Seq<ReputationScore>,
    g: usize,
    user: Address,
    investment: u64,
    participation: u64,
    contribution: u64,
    now: i64,
) -> Seq<ReputationScore> {
    put_reputation(
        s,
        g,
        user,
        with_deltas(current_reputation(s, g, user), investment, participation, contribution, now),
    )
}

fn find_reputation(reps: &Vec<ReputationScore>, g: usize, user: Address) -> (r: Option<usize>)
    ensures
        match r {
            Some(i) => reputation_at(reps@, i as int, g, user),
            None => !has_reputation(reps@, g, user),
        },
{
    let mut i: usize = 0;
    while i < reps.len()
        invariant
            i <= reps@.len(),
            forall|k: int| 0 <= k < i ==> !#[trigger] reputation_at(reps@, k, g, user),
        decreases reps@.len() - i,
    {
        if reps[i].governance == g && reps[i].user == user {
            return Some(i);
        }
        i = i + 1;
    }
    None
}

/// The record of `user` under root `g` as `(investment, participation,
/// contribution)`, zeros when there is none.
fn current_components(reps: &Vec<ReputationScore>, g: usize, user: Address, governance_count: Ghost<nat>) -> (r: (
    Option<usize>,
    u64,
    u64,
    u64,
))
    requires
        reputations_valid(reps@, governance_count@),
    ensures
        match r.0 {
            Some(i) => reputation_at(reps@, i as int, g, user) && current_reputation(reps@, g, user)
                == reps@[i as int],
            None => !has_reputation(reps@, g, user),
        },
        r.1 == current_reputation(reps@, g, user).investment_score,
        r.2 == current_reputation(reps@, g, user).participation_score,
        r.3 == current_reputation(reps@, g, user).contribution_score,
{
    let found = find_reputation(reps, g, user);
    match found {
        Some(i) => {
            proof {
                let j = choose|j: int| reputation_at(reps@, j, g, user);
                assert(reputation_at(reps@, j, g, user));
                assert(i as int == j);
            }
            (found, reps[i].investment_score, reps[i].participation_score, reps[i].contribution_score)
        },
        None => (found, 0, 0, 0),
    }
}

/// Whether the deltas can be added to the record of `user` under root `g`
/// without overflow.
pub(crate) fn reputation_delta_fits(
    reps: &Vec<ReputationScore>,
    g: usize,
    user: Address,
    investment: u64,
    participation: u64,
    contribution: u64,
    governance_count: Ghost<nat>,
) -> (r: bool)
    requires
        reputations_valid(reps@, governance_count@),
    ensures
        r == deltas_fit(current_reputation(reps@, g, user), investment, participation, contribution),
{
    let (_, inv0, part0, contr0) = current_components(reps, g, user, governance_count);
    if inv0 > u64::MAX - investment || part0 > u64::MAX - participation || contr0 > u64::MAX
        - contribution {
        return false;
    }
    let inv = inv0 + investment;
    let part = part0 + participation;
    let contr = contr0 + contribution;
    inv <= u64::MAX - part && inv + part <= u64::MAX - contr
}

/// Adds the three deltas to the record of `user` under root `g`, creating a
/// zeroed record first if there is none, and recomputes the total.
pub(crate) fn apply_reputation_delta(
    reps: &mut Vec<ReputationScore>,
    g: usize,
    user: Address,
    investment: u64,
    participation: u64,
    contribution: u64,
    now: i64,
    governance_count: Ghost<nat>,
)
    requires
        reputations_valid(old(reps)@, governance_count@),
        g < governance_count@,
        deltas_fit(current_reputation(old(reps)@, g, user), investment, participation, contribution),
    ensures
        reputations_valid(final(reps)@, governance_count@),
        final(reps)@ == reputation_after(
            old(reps)@,
            g,
            user,
            investment,
            participation,
            contribution,
            now,
        ),
{
    let (found, inv0, part0, contr0) = current_components(reps, g, user, governance_count);
    let inv = inv0 + investment;
    let part = part0 + participation;
    let contr = contr0 + contribution;
    let rec = ReputationScore {
        user,
        governance: g,
        investment_score: inv,
        participation_score: part,
        contribution_score: contr,
        total_score: inv + part + contr,
        last_updated: now,
    };
    match found {
        Some(i) => {
            reps.set(i, rec);
        },
        None => {
            reps.push(rec);
        },
    }
    proof {
        assert(score_consistent(rec));
        let s = reps@;
        assert forall|i: int, j: int|
            0 <= i < s.len() && 0 <= j < s.len() && i != j && #[trigger] s[i].governance
                == #[trigger] s[j].governance implies s[i].user != s[j].user by {
            if found is None {
                if j == s.len() - 1 {
                    assert(!reputation_at(old(reps)@, i, g, user));
                }
                if i == s.len() - 1 {
                    assert(!reputation_at(old(reps)@, j, g, user));
                }
            }
        }
    }
}

impl Ledger {
    /// Adds the deltas to the score of `user` under governance root `g`,
    /// creating the record on the user's first write, and recomputes its
    /// total. Fails with `NotFound` for an unknown root and with
    /// `MathOverflow` when a sum does not fit; a failure changes nothing.
    pub fn apply_reputation_delta(
        &mut self,
        g: usize,
        user: Address,
        investment: u64,
        participation: u64,
        contribution: u64,
        now: i64,
    ) -> (r: Result<(), GovernanceError>)
        requires
            old(self).wf(),
        ensures
            final(self).wf(),
            r is Ok <==> g < old(self).governances@.len() && deltas_fit(
                current_reputation(old(self).reputations@, g, user),
                investment,
                participation,
                contribution,
            ),
            r is Ok ==> final(self).reputations@ == reputation_after(
                old(self).reputations@,
                g,
                user,
                investment,
                participation,
                contribution,
                now,
            ) && final(self).governances@ == old(self).governances@ && final(self).communities@
                == old(self).communities@ && final(self).memberships@ == old(self).memberships@
                && final(self).proposals@ == old(self).proposals@ && final(self).votes@
                == old(self).votes@ && final(self).rewards@ == old(self).rewards@
                && final(self).factions@ == old(self).factions@ && final(self).faction_memberships@
                == old(self).faction_memberships@ && final(self).strategies@
                == old(self).strategies@,
            r is Err ==> *final(self) == *old(self) && r == if g >= old(self).governances@.len() {
                Err::<(), GovernanceError>(GovernanceError::NotFound)
            } else {
                Err::<(), GovernanceError>(GovernanceError::MathOverflow)
            },
    {
        if g >= self.governances.len() {
            return Err(GovernanceError::NotFound);
        }
        if !reputation_delta_fits(
            &self.reputations,
            g,
            user,
            investment,
            participation,
            contribution,
            Ghost(self.governances@.len()),
        ) {
            return Err(GovernanceError::MathOverflow);
        }
        apply_reputation_delta(
            &mut self.reputations,
            g,
            user,
            investment,
            participation,
            contribution,
            now,
            Ghost(self.governances@.len()),
        );
        Ok(())
    }
}

} // verus!
