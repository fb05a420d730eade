//! Governance and reputation ledger of a community-investment platform:
//! communities, weighted memberships, proposals with a voting window,
//! quorum-based finalization, and the reputation and activity-reward records
//! fed by every participation event.

pub mod accounting;
pub mod communities;
pub mod factions;
pub mod laws;
pub mod ledger;
pub mod proposals;
pub mod reputation;
pub mod strategies;
pub mod types;
