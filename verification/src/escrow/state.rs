//! Accounts that the escrow program owns.

use vstd::prelude::*;

use crate::pubkey::Pubkey;

verus! {

/// Where a milestone stands.
#[derive(Clone, Copy, Debug, PartialEq, Eq, Structural)]
pub enum MilestoneStatus {
    PendingFunding,
    Funded,
    Submitted,
    PartialReleased,
    Completed,
}

/// One milestone of a gig.
#[derive(Clone, Copy, Debug)]
pub struct Milestone {
    pub gig: Pubkey,
    pub index: u32,
    pub status: MilestoneStatus,
}

/// A gig's vault: what it holds and how far its milestones have got.
#[derive(Clone, Copy, Debug)]
pub struct EscrowVault {
    pub gig: Pubkey,
    /// Milestones ever created; it allocates milestone indices and never
    /// goes down.
    pub milestone_count: u32,
    /// Milestones fully released.
    pub active_milestone: u32,
    /// Milestones closed before funding.
    pub cancelled_milestones: u32,
    pub total_locked: u64,
    pub total_released: u64,
    /// Whether the gig's outcome has been reported to the reputation
    /// program.
    pub reputation_synced: bool,
    pub bump: u8,
}

} // verus!
