use vstd::prelude::*;

verus! {

/// A 32-byte account identity, held as two 128-bit halves.
#[derive(Clone, Copy, Debug, PartialEq, Eq, Structural)]
pub struct Address {
    pub hi: u128,
    pub lo: u128,
}

impl Address {
    /// The address whose 32 bytes are `hi` then `lo`, big-endian.
    pub fn new(hi: u128, lo: u128) -> (r: Address)
        ensures
            r.hi == hi,
            r.lo == lo,
    {
        Address { hi, lo }
    }
}

/// Lifecycle of a proposal. `Draft` and `Canceled` are kept for forward
/// compatibility; no operation moves a proposal into or out of them.
#[derive(Clone, Copy, Debug, PartialEq, Eq, Structural)]
pub enum ProposalStatus {
    Draft,
    Active,
    Canceled,
    Defeated,
    Succeeded,
    Executed,
}

#[derive(Clone, Copy, Debug, PartialEq, Eq, Structural)]
pub enum VoteType {
    For,
    Against,
    Abstain,
}

/// Role of a member inside a community.
#[derive(Clone, Copy, Debug, PartialEq, Eq, Structural)]
pub enum Role {
    Member,
    Moderator,
    Admin,
}

/// The participation event an activity reward was granted for.
#[derive(Clone, Copy, Debug, PartialEq, Eq, Structural)]
pub enum RewardKind {
    Vote,
    Proposal,
    Contribution,
}

#[derive(Clone, Copy, Debug, PartialEq, Eq, Structural)]
pub enum GovernanceError {
    /// The proposal is not in the state the transition needs.
    InvalidProposalState,
    /// The voting window of the proposal has closed.
    VotingEnded,
    /// The voting window of the proposal has not opened yet.
    VotingNotStarted,
    /// The proposal cannot be finalized while its voting window is open.
    VotingStillOpen,
    /// The caller has no active membership in the community concerned.
    NotCommunityMember,
    /// The caller may not perform this action.
    InsufficientPermission,
    /// Fewer votes than the governance threshold were cast.
    ThresholdNotReached,
    /// The caller has already voted on this proposal.
    AlreadyVoted,
    /// A checked addition overflowed.
    MathOverflow,
    /// Risk level out of range, or allocations that do not add up to 100.
    InvalidInvestmentAllocation,
    /// A record with the same key already exists.
    AlreadyExists,
    /// No record exists under the given key.
    NotFound,
    /// The governance root, community or faction is not active.
    NotActive,
}

/// The top-level configuration under one authority.
pub struct GovernanceConfig {
    pub authority: Address,
    pub name: String,
    /// Minimum total voting power for a proposal to be decidable.
    pub min_vote_threshold: u64,
    /// Length of the voting window, in seconds.
    pub voting_period: i64,
    pub proposal_count: u64,
    pub total_communities: u64,
    pub is_active: bool,
}

pub struct Community {
    /// Index of the governance root the community belongs to.
    pub governance: usize,
    pub name: String,
    pub description: String,
    pub authority: Address,
    pub member_count: u64,
    pub proposal_count: u64,
    pub creation_time: i64,
    pub is_active: bool,
}

pub struct Membership {
    /// Index of the community.
    pub community: usize,
    pub user: Address,
    pub role: Role,
    /// Weight frozen into each vote the member casts.
    pub voting_power: u64,
    pub join_time: i64,
    pub reputation_score: u64,
    pub is_active: bool,
}

pub struct ProposalAccount {
    pub pubkey: Address,
    pub is_signer: bool,
    pub is_writable: bool,
}

pub struct ProposalInstruction {
    pub program_id: Address,
    pub accounts: Vec<ProposalAccount>,
    pub data: Vec<u8>,
}

/// Instructions attached to a proposal; kept as data, never executed.
pub struct ProposalInstructions {
    pub proposal: usize,
    pub instructions: Vec<ProposalInstruction>,
}

pub struct Proposal {
    pub governance: usize,
    pub community: usize,
    pub proposer: Address,
    pub title: String,
    pub description: String,
    pub status: ProposalStatus,
    pub start_time: i64,
    pub end_time: i64,
    pub instruction_count: u8,
    pub for_votes: u64,
    pub against_votes: u64,
    pub abstain_votes: u64,
    pub executed_at: Option<i64>,
    pub is_investment_proposal: bool,
    pub target_collection: Option<Address>,
    pub investment_amount: Option<u64>,
}

pub struct Vote {
    /// Index of the proposal voted on.
    pub proposal: usize,
    pub voter: Address,
    pub vote_type: VoteType,
    pub voting_power: u64,
    pub vote_time: i64,
}

pub struct ReputationScore {
    pub user: Address,
    pub governance: usize,
    pub investment_score: u64,
    pub participation_score: u64,
    pub contribution_score: u64,
    /// Always the sum of the three components.
    pub total_score: u64,
    pub last_updated: i64,
}

pub struct ActivityReward {
    pub user: Address,
    pub governance: usize,
    pub reward_type: RewardKind,
    pub amount: u64,
    pub timestamp: i64,
    pub is_claimed: bool,
}

pub struct StrategicFaction {
    pub governance: usize,
    pub name: String,
    pub description: String,
    pub founder: Address,
    pub member_count: u64,
    pub creation_time: i64,
    pub investment_strategy: String,
    pub is_active: bool,
}

pub struct FactionMembership {
    pub faction: usize,
    pub user: Address,
    pub join_time: i64,
    pub is_active: bool,
}

pub struct InvestmentStrategy {
    pub community: usize,
    pub name: String,
    pub description: String,
    pub creator: Address,
    /// From 1 (lowest risk) to 5.
    pub risk_level: u8,
    pub target_collections: Vec<Address>,
    pub allocation_percentages: Vec<u8>,
    pub creation_time: i64,
    pub last_updated: i64,
    /// May go negative when the strategy performs poorly.
    pub performance_score: i64,
    pub is_active: bool,
}

} // verus!
